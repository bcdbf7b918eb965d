//! Scales a cluster.

use crate::authority;
use crate::authority::{guarded, proceed, Reported};
use crate::json;
use crate::rig_api;
use crate::text;
use crate::tools;
use crate::tools::ToolArguments;
use rig::tool::ToolContext;
use serde_json::Value;
use vstd::prelude::*;

verus! {

/// Which cluster to scale, and to what.
#[derive(Debug)]
pub struct ScaleArgs {
    /// Cluster name, e.g. "staging-web".
    pub cluster: String,
    /// Desired replica count.
    pub replicas: i64,
}

/// The JSON value of a cluster and a replica count.
pub open spec fn scale_json(cluster: Seq<char>, replicas: int) -> json::Json {
    json::object_two(
        "cluster"@,
        json::Json::Text(cluster),
        "replicas"@,
        json::Json::Integer(replicas),
    )
}

impl ToolArguments for ScaleArgs {
    open spec fn json(&self) -> json::Json {
        scale_json(self.cluster@, self.replicas as int)
    }

    fn to_value(&self) -> (r: Value) {
        proof {
            reveal_strlit("cluster");
            reveal_strlit("replicas");
            assert("cluster"@.len() != "replicas"@.len());
        }
        json::object_with_two(
            "cluster",
            json::text_value(self.cluster.as_str()),
            "replicas",
            json::integer_value(self.replicas),
        )
    }
}

/// The tool that scales a cluster.
pub struct ScaleCluster;

/// What the tool answers.
pub open spec fn scaled_text(cluster: Seq<char>, replicas: int) -> Seq<char> {
    "scaled "@ + cluster + " to "@ + text::signed_decimal(replicas) + " replicas"@
}

impl ScaleCluster {
    /// The name of the tool.
    pub const NAME: &'static str = "scale_cluster";

    /// What the tool is for.
    pub fn description(&self) -> (r: String)
        ensures
            r@ == "Scale a Kubernetes cluster to a replica count."@,
    {
        "Scale a Kubernetes cluster to a replica count.".to_owned()
    }

    /// The schema of the arguments.
    pub fn parameters(&self) -> (r: Value)
        ensures
            json::json_of(r) == json::Json::Object(
                tools::object_schema(
                    json::object_two(
                        "cluster"@,
                        tools::typed("string"@),
                        "replicas"@,
                        tools::typed("integer"@),
                    ),
                    seq![json::Json::Text("cluster"@), json::Json::Text("replicas"@)],
                ),
            ),
    {
        proof {
            reveal_strlit("cluster");
            reveal_strlit("replicas");
            assert("cluster"@.len() != "replicas"@.len());
        }
        let properties = json::object_with_two(
            "cluster",
            tools::typed_value("string"),
            "replicas",
            tools::typed_value("integer"),
        );
        let required: Vec<Value> = vec![json::text_value("cluster"), json::text_value("replicas")];
        assert(json::contents(required@) =~= seq![
            json::Json::Text("cluster"@),
            json::Json::Text("replicas"@),
        ]);
        json::object_value(tools::object_schema_entries(properties, required))
    }

    /// Scales the cluster, where the authority in the context allows it.
    pub fn call(&self, context: &mut ToolContext, args: &ScaleArgs) -> (r: Reported<String>)
        ensures
            authority::guarded_report(
                rig_api::context_of(*old(context)),
                rig_api::context_of(*final(context)),
                "scale_cluster"@,
                scale_json(args.cluster@, args.replicas as int),
                authority::failure_in(r.result),
                text::views(r.lines@),
            ),
            authority::follows_decision(
                rig_api::context_of(*old(context)),
                rig_api::context_of(*final(context)),
                "scale_cluster"@,
                scale_json(args.cluster@, args.replicas as int),
                authority::failure_in(r.result),
                text::views(r.lines@),
            ),
            r.result matches Ok(done) ==> done@ == scaled_text(args.cluster@, args.replicas as int),
            r.result is Ok || authority::is_denial(r.result) || authority::stopped(
                rig_api::context_of(*old(context)),
                "scale_cluster"@,
                scale_json(args.cluster@, args.replicas as int),
            ) is Some,
    {
        let checked = guarded(context, ScaleCluster::NAME, args, proceed);
        if let Err(error) = checked.result {
            return Reported { result: Err(error), lines: checked.lines };
        }
        let count = text::signed_decimal_text(args.replicas);
        let mut reply = "scaled ".to_owned();
        reply.append(args.cluster.as_str());
        reply.append(" to ");
        reply.append(count.as_str());
        reply.append(" replicas");
        Reported { result: Ok(reply), lines: checked.lines }
    }
}

}
