use vstd::prelude::*;

verus! {

/// A download that installing the local assistant may need.
#[derive(Clone, Copy, Debug, PartialEq, Eq, Structural)]
pub enum SetupStep {
    DownloadServer,
    DownloadModel,
}

/// What installing the assistant downloads: the server unless it is
/// there, then the model unless it is there.
pub open spec fn setup_plan_spec(server_ready: bool, model_ready: bool) -> Seq<SetupStep> {
    let server: Seq<SetupStep> = if server_ready {
        Seq::empty()
    } else {
        seq![SetupStep::DownloadServer]
    };
    if model_ready {
        server
    } else {
        server.push(SetupStep::DownloadModel)
    }
}

/// The downloads that installing the assistant still needs, in order.
pub fn setup_plan(server_ready: bool, model_ready: bool) -> (r: Vec<SetupStep>)
    ensures
        r@ == setup_plan_spec(server_ready, model_ready),
{
    let mut r: Vec<SetupStep> = Vec::new();
    if !server_ready {
        r.push(SetupStep::DownloadServer);
    }
    if !model_ready {
        r.push(SetupStep::DownloadModel);
    }
    proof {
        if !server_ready {
            assert(seq![SetupStep::DownloadServer] =~= Seq::<SetupStep>::empty().push(SetupStep::DownloadServer));
        }
    }
    r
}

/// Installing is idempotent: once both parts are there, nothing is
/// downloaded; and nothing already there is downloaded again.
pub proof fn lemma_setup_downloads_only_missing(server_ready: bool, model_ready: bool)
    ensures
        (server_ready && model_ready) ==> setup_plan_spec(server_ready, model_ready).len() == 0,
        server_ready ==> !setup_plan_spec(server_ready, model_ready).contains(SetupStep::DownloadServer),
        model_ready ==> !setup_plan_spec(server_ready, model_ready).contains(SetupStep::DownloadModel),
        !server_ready ==> setup_plan_spec(server_ready, model_ready).contains(SetupStep::DownloadServer),
        !model_ready ==> setup_plan_spec(server_ready, model_ready).contains(SetupStep::DownloadModel),
{
    let p = setup_plan_spec(server_ready, model_ready);
    if !server_ready {
        assert(p[0] == SetupStep::DownloadServer);
    }
    if !model_ready {
        assert(p[p.len() - 1] == SetupStep::DownloadModel);
    }
}

} // verus!
