use vstd::prelude::*;
use vstd::string::StringExecFns;

use crate::json::{append_json_opt_string, append_json_opt_u64, append_json_string,
    json_opt_string, json_opt_u64, json_string, opt_view};

verus! {

/// The perspectives query with no arguments: list every perspective.
pub struct All;

impl All {
    /// The GraphQL variables of this request: none.
    pub fn variables_json(&self) -> (r: String)
        ensures
            r@ == "{}"@,
    {
        String::from_str("{}")
    }
}

/// Create a perspective under a name.
pub struct Add {
    pub name: String,
}

/// The GraphQL variables of an `Add` request.
pub open spec fn add_variables(name: Seq<char>) -> Seq<char> {
    "{\"name\":"@ + json_string(name) + "}"@
}

impl Add {
    /// The GraphQL variables of this request, as exact JSON.
    pub fn variables_json(&self) -> (r: String)
        ensures
            r@ == add_variables(self.name@),
    {
        let mut out = String::new();
        out.append("{\"name\":");
        append_json_string(&mut out, self.name.as_str());
        out.append("}");
        assert(out@ =~= add_variables(self.name@));
        out
    }
}

/// Remove a perspective by its identifier.
pub struct Remove {
    pub uuid: String,
}

/// The GraphQL variables of a `Remove` request.
pub open spec fn remove_variables(uuid: Seq<char>) -> Seq<char> {
    "{\"uuid\":"@ + json_string(uuid) + "}"@
}

impl Remove {
    /// The GraphQL variables of this request, as exact JSON.
    pub fn variables_json(&self) -> (r: String)
        ensures
            r@ == remove_variables(self.uuid@),
    {
        let mut out = String::new();
        out.append("{\"uuid\":");
        append_json_string(&mut out, self.uuid.as_str());
        out.append("}");
        assert(out@ =~= remove_variables(self.uuid@));
        out
    }
}

/// Add a link to a perspective.
pub struct AddLink {
    pub uuid: String,
    pub source: String,
    pub target: String,
    pub predicate: Option<String>,
}

/// The GraphQL variables of an `AddLink` request.
pub open spec fn add_link_variables(
    uuid: Seq<char>,
    source: Seq<char>,
    target: Seq<char>,
    predicate: Option<Seq<char>>,
) -> Seq<char> {
    "{\"uuid\":"@ + json_string(uuid) + ",\"link\":{\"source\":"@ + json_string(source)
        + ",\"target\":"@ + json_string(target) + ",\"predicate\":"@ + json_opt_string(predicate)
        + "}}"@
}

impl AddLink {
    /// The GraphQL variables of this request, as exact JSON.
    pub fn variables_json(&self) -> (r: String)
        ensures
            r@ == add_link_variables(self.uuid@, self.source@, self.target@, opt_view(
                self.predicate,
            )),
    {
        let mut out = String::new();
        out.append("{\"uuid\":");
        append_json_string(&mut out, self.uuid.as_str());
        out.append(",\"link\":{\"source\":");
        append_json_string(&mut out, self.source.as_str());
        out.append(",\"target\":");
        append_json_string(&mut out, self.target.as_str());
        out.append(",\"predicate\":");
        append_json_opt_string(&mut out, &self.predicate);
        out.append("}}");
        assert(out@ =~= add_link_variables(self.uuid@, self.source@, self.target@, opt_view(
            self.predicate,
        )));
        out
    }
}

/// Query the links of a perspective, each filter optional. Dates travel
/// as their already-formatted text; the result-count limit is a whole
/// number.
pub struct QueryLinks {
    pub uuid: String,
    pub source: Option<String>,
    pub target: Option<String>,
    pub predicate: Option<String>,
    pub from_date: Option<String>,
    pub until_date: Option<String>,
    pub limit: Option<u64>,
}

/// The GraphQL variables of a `QueryLinks` request.
pub open spec fn query_links_variables(
    uuid: Seq<char>,
    source: Option<Seq<char>>,
    target: Option<Seq<char>>,
    predicate: Option<Seq<char>>,
    from_date: Option<Seq<char>>,
    until_date: Option<Seq<char>>,
    limit: Option<u64>,
) -> Seq<char> {
    "{\"uuid\":"@ + json_string(uuid) + ",\"query\":{\"source\":"@ + json_opt_string(source)
        + ",\"target\":"@ + json_opt_string(target) + ",\"predicate\":"@ + json_opt_string(
        predicate,
    ) + ",\"fromDate\":"@ + json_opt_string(from_date) + ",\"untilDate\":"@ + json_opt_string(
        until_date,
    ) + ",\"limit\":"@ + json_opt_u64(limit) + "}}"@
}

impl QueryLinks {
    /// The GraphQL variables of this request, as exact JSON.
    pub fn variables_json(&self) -> (r: String)
        ensures
            r@ == query_links_variables(
                self.uuid@,
                opt_view(self.source),
                opt_view(self.target),
                opt_view(self.predicate),
                opt_view(self.from_date),
                opt_view(self.until_date),
                self.limit,
            ),
    {
        let mut out = String::new();
        out.append("{\"uuid\":");
        append_json_string(&mut out, self.uuid.as_str());
        out.append(",\"query\":{\"source\":");
        append_json_opt_string(&mut out, &self.source);
        out.append(",\"target\":");
        append_json_opt_string(&mut out, &self.target);
        out.append(",\"predicate\":");
        append_json_opt_string(&mut out, &self.predicate);
        out.append(",\"fromDate\":");
        append_json_opt_string(&mut out, &self.from_date);
        out.append(",\"untilDate\":");
        append_json_opt_string(&mut out, &self.until_date);
        out.append(",\"limit\":");
        append_json_opt_u64(&mut out, &self.limit);
        out.append("}}");
        assert(out@ =~= query_links_variables(
            self.uuid@,
            opt_view(self.source),
            opt_view(self.target),
            opt_view(self.predicate),
            opt_view(self.from_date),
            opt_view(self.until_date),
            self.limit,
        ));
        out
    }
}

/// Run a Prolog query inside a perspective.
pub struct Infer {
    pub uuid: String,
    pub query: String,
}

/// The GraphQL variables of an `Infer` request.
pub open spec fn infer_variables(uuid: Seq<char>, query: Seq<char>) -> Seq<char> {
    "{\"uuid\":"@ + json_string(uuid) + ",\"query\":"@ + json_string(query) + "}"@
}

impl Infer {
    /// The GraphQL variables of this request, as exact JSON.
    pub fn variables_json(&self) -> (r: String)
        ensures
            r@ == infer_variables(self.uuid@, self.query@),
    {
        let mut out = String::new();
        out.append("{\"uuid\":");
        append_json_string(&mut out, self.uuid.as_str());
        out.append(",\"query\":");
        append_json_string(&mut out, self.query.as_str());
        out.append("}");
        assert(out@ =~= infer_variables(self.uuid@, self.query@));
        out
    }
}

/// What a Prolog query's decoded answer text means: the runtime returns
/// the literal words `true` and `false` as text, and anything else is an
/// ordinary result value.
pub enum PrologResult {
    Bool(bool),
    Text(String),
}

/// Interprets the decoded answer text of an `Infer` request: exactly the
/// text `true` is the boolean true, exactly `false` the boolean false,
/// and any other text stays as it is.
pub fn interpret_prolog_text(answer: String) -> (r: PrologResult)
    ensures
        answer@ == "true"@ ==> (r matches PrologResult::Bool(b) && b),
        answer@ == "false"@ ==> (r matches PrologResult::Bool(b) && !b),
        answer@ != "true"@ && answer@ != "false"@ ==> (r matches PrologResult::Text(t) && t@
            == answer@),
{
    proof {
        reveal_strlit("true");
        reveal_strlit("false");
        assert("true"@.len() == 4);
        assert("false"@.len() == 5);
        assert("true"@ != "false"@);
    }
    let yes = String::from_str("true");
    let no = String::from_str("false");
    if answer == yes {
        PrologResult::Bool(true)
    } else if answer == no {
        PrologResult::Bool(false)
    } else {
        PrologResult::Text(answer)
    }
}

/// Subscribe to link additions on a perspective.
pub struct SubscriptionLinkAdded {
    pub uuid: String,
}

/// The GraphQL variables of a `SubscriptionLinkAdded` request.
pub open spec fn subscription_link_added_variables(uuid: Seq<char>) -> Seq<char> {
    "{\"uuid\":"@ + json_string(uuid) + "}"@
}

impl SubscriptionLinkAdded {
    /// The GraphQL variables of this request, as exact JSON.
    pub fn variables_json(&self) -> (r: String)
        ensures
            r@ == subscription_link_added_variables(self.uuid@),
    {
        let mut out = String::new();
        out.append("{\"uuid\":");
        append_json_string(&mut out, self.uuid.as_str());
        out.append("}");
        assert(out@ =~= subscription_link_added_variables(self.uuid@));
        out
    }
}

} // verus!
