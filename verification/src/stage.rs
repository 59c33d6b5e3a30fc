use vstd::prelude::*;
use vstd::string::StringExecFns;

verus! {

/// One step of the destructive identity staging, relative to the
/// operator's base directory. The executor performs these in order;
/// the first failure is fatal and no rollback is attempted.
pub enum StageAction {
    /// Remove the base directory and all its contents, if it exists,
    /// then recreate it empty.
    ClearBase,
    /// Create a subdirectory of the base directory.
    MakeDir { rel: String },
    /// Write a file under the base directory with the given contents.
    WriteFile { rel: String, contents: String },
}

/// The base-relative path of the copied identity credential.
pub open spec fn agent_file_path() -> Seq<char> {
    "config/agent.json"@
}

/// The base-relative path of the placeholder cache file.
pub open spec fn cache_file_path() -> Seq<char> {
    "data/DIDCache.json"@
}

/// What one staging step does to the files under the base directory,
/// modelled as a map from base-relative path to contents. Creating a
/// directory touches no file.
pub open spec fn apply_action(
    files: Map<Seq<char>, Seq<char>>,
    a: StageAction,
) -> Map<Seq<char>, Seq<char>> {
    match a {
        StageAction::ClearBase => Map::empty(),
        StageAction::MakeDir { rel } => files,
        StageAction::WriteFile { rel, contents } => files.insert(rel@, contents@),
    }
}

/// The files under the base directory after running a plan, in order.
pub open spec fn apply_plan(
    files: Map<Seq<char>, Seq<char>>,
    plan: Seq<StageAction>,
) -> Map<Seq<char>, Seq<char>>
    decreases plan.len(),
{
    if plan.len() == 0 {
        files
    } else {
        apply_plan(apply_action(files, plan[0]), plan.drop_first())
    }
}

/// The staged end state: exactly the two seed files, nothing else.
pub open spec fn staged_files(identity: Seq<char>) -> Map<Seq<char>, Seq<char>> {
    Map::empty().insert(agent_file_path(), identity).insert(cache_file_path(), "{}"@)
}

/// The shape of the staging plan for a given identity credential text.
pub open spec fn is_staging_plan(plan: Seq<StageAction>, identity: Seq<char>) -> bool {
    &&& plan.len() == 5
    &&& plan[0] is ClearBase
    &&& (plan[1] matches StageAction::MakeDir { rel } && rel@ == "config"@)
    &&& (plan[2] matches StageAction::MakeDir { rel } && rel@ == "data"@)
    &&& (plan[3] matches StageAction::WriteFile { rel, contents } && rel@ == agent_file_path()
        && contents@ == identity)
    &&& (plan[4] matches StageAction::WriteFile { rel, contents } && rel@ == cache_file_path()
        && contents@ == "{}"@)
}

/// Destructive staging is idempotent in its end state: whatever files
/// were under the base directory before, running the plan leaves exactly
/// the two seed files.
pub proof fn lemma_staging_end_state(
    prior: Map<Seq<char>, Seq<char>>,
    plan: Seq<StageAction>,
    identity: Seq<char>,
)
    requires
        is_staging_plan(plan, identity),
    ensures
        apply_plan(prior, plan) == staged_files(identity),
{
    let t1 = plan.drop_first();
    let t2 = t1.drop_first();
    let t3 = t2.drop_first();
    let t4 = t3.drop_first();
    let t5 = t4.drop_first();
    assert(t1[0] == plan[1] && t1[1] == plan[2] && t1[2] == plan[3] && t1[3] == plan[4]);
    assert(t2[0] == plan[2] && t2[1] == plan[3] && t2[2] == plan[4]);
    assert(t3[0] == plan[3] && t3[1] == plan[4]);
    assert(t4[0] == plan[4]);
    assert(t5.len() == 0);
    let m1 = apply_action(prior, plan[0]);
    let m2 = apply_action(m1, plan[1]);
    let m3 = apply_action(m2, plan[2]);
    let m4 = apply_action(m3, plan[3]);
    let m5 = apply_action(m4, plan[4]);
    assert(apply_plan(prior, plan) == apply_plan(m1, t1));
    assert(apply_plan(m1, t1) == apply_plan(m2, t2));
    assert(apply_plan(m2, t2) == apply_plan(m3, t3));
    assert(apply_plan(m3, t3) == apply_plan(m4, t4));
    assert(apply_plan(m4, t4) == apply_plan(m5, t5));
    assert(m5 =~= staged_files(identity));
}

/// Builds the staging plan for the given identity credential text:
/// clear the base directory, recreate the config and data subtrees, copy
/// the credential under its fixed name, and write the empty placeholder
/// cache. Whatever was there before, this plan ends in exactly the two
/// seed files.
pub fn staging_plan(identity: &str) -> (plan: Vec<StageAction>)
    ensures
        is_staging_plan(plan@, identity@),
        forall|prior: Map<Seq<char>, Seq<char>>| apply_plan(prior, plan@) == staged_files(
            identity@,
        ),
{
    let mut plan: Vec<StageAction> = Vec::new();
    plan.push(StageAction::ClearBase);
    plan.push(StageAction::MakeDir { rel: String::from_str("config") });
    plan.push(StageAction::MakeDir { rel: String::from_str("data") });
    plan.push(StageAction::WriteFile {
        rel: String::from_str("config/agent.json"),
        contents: identity.to_owned(),
    });
    plan.push(StageAction::WriteFile {
        rel: String::from_str("data/DIDCache.json"),
        contents: String::from_str("{}"),
    });
    proof {
        assert(is_staging_plan(plan@, identity@));
        assert forall|prior: Map<Seq<char>, Seq<char>>| apply_plan(prior, plan@) == staged_files(
            identity@,
        ) by {
            lemma_staging_end_state(prior, plan@, identity@);
        }
    }
    plan
}

/// Does the operator's answer to the destructive-confirmation prompt
/// let the run proceed? Exactly `n` and `N` decline; anything else,
/// the empty answer included, proceeds.
pub open spec fn spec_confirm(answer: Seq<char>) -> bool {
    !(answer == "n"@ || answer == "N"@)
}

/// Decides the destructive-confirmation prompt.
pub fn confirm_proceeds(answer: &str) -> (r: bool)
    ensures
        r == spec_confirm(answer@),
{
    let a = answer.to_owned();
    let no = String::from_str("n");
    let no_upper = String::from_str("N");
    !(a == no || a == no_upper)
}

} // verus!
