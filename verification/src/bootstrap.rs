use vstd::prelude::*;
use vstd::string::StringExecFns;

use crate::json::{append_json_string, append_json_string_array, json_string, json_string_array,
    string_views};

verus! {

/// The minimal configuration the child runtime is started with. It exists
/// only to let the runtime boot far enough to accept publishing calls: the
/// foundational-language bundle is real, everything else is deliberately
/// empty and supplies no working network identity.
pub struct BootstrapConfig {
    pub trusted_agents: Vec<String>,
    pub known_link_languages: Vec<String>,
    pub language_language_bundle: String,
    pub direct_message_language: String,
    pub agent_language: String,
    pub perspective_language: String,
    pub neighbourhood_language: String,
}

impl BootstrapConfig {
    /// Both lists are empty and all four placeholder language addresses
    /// are empty strings: the invariant of the temporary config.
    pub open spec fn is_temporary(self) -> bool {
        &&& self.trusted_agents@.len() == 0
        &&& self.known_link_languages@.len() == 0
        &&& self.direct_message_language@ == Seq::<char>::empty()
        &&& self.agent_language@ == Seq::<char>::empty()
        &&& self.perspective_language@ == Seq::<char>::empty()
        &&& self.neighbourhood_language@ == Seq::<char>::empty()
    }

    /// Builds the temporary bootstrap config around the given
    /// foundational-language source bundle. For every bundle, the two
    /// lists come out empty and the four placeholder addresses come out
    /// as empty strings.
    pub fn temporary(bundle: String) -> (c: BootstrapConfig)
        ensures
            c.is_temporary(),
            c.language_language_bundle@ == bundle@,
    {
        let c = BootstrapConfig {
            trusted_agents: Vec::new(),
            known_link_languages: Vec::new(),
            language_language_bundle: bundle,
            direct_message_language: String::new(),
            agent_language: String::new(),
            perspective_language: String::new(),
            neighbourhood_language: String::new(),
        };
        c
    }
}

/// The serialized form of a bootstrap config with the given field values:
/// one JSON object holding the two lists and the five strings under their
/// field names, in this order.
pub open spec fn bootstrap_json_parts(
    trusted: Seq<Seq<char>>,
    known: Seq<Seq<char>>,
    bundle: Seq<char>,
    direct_message: Seq<char>,
    agent: Seq<char>,
    perspective: Seq<char>,
    neighbourhood: Seq<char>,
) -> Seq<char> {
    "{\"trusted_agents\":"@ + json_string_array(trusted) + ",\"known_link_languages\":"@
        + json_string_array(known) + ",\"language_language_bundle\":"@ + json_string(bundle)
        + ",\"direct_message_language\":"@ + json_string(direct_message)
        + ",\"agent_language\":"@ + json_string(agent) + ",\"perspective_language\":"@
        + json_string(perspective) + ",\"neighbourhood_language\":"@ + json_string(neighbourhood)
        + "}"@
}

/// The serialized form of a bootstrap config.
pub open spec fn bootstrap_json(c: BootstrapConfig) -> Seq<char> {
    bootstrap_json_parts(
        string_views(c.trusted_agents@),
        string_views(c.known_link_languages@),
        c.language_language_bundle@,
        c.direct_message_language@,
        c.agent_language@,
        c.perspective_language@,
        c.neighbourhood_language@,
    )
}

/// The serialized form of the temporary bootstrap config around a given
/// bundle: empty lists, empty placeholder addresses.
pub open spec fn temporary_json(bundle: Seq<char>) -> Seq<char> {
    bootstrap_json_parts(
        Seq::<Seq<char>>::empty(),
        Seq::<Seq<char>>::empty(),
        bundle,
        Seq::<char>::empty(),
        Seq::<char>::empty(),
        Seq::<char>::empty(),
        Seq::<char>::empty(),
    )
}

/// A temporary config serializes to exactly the temporary JSON form of
/// its bundle.
pub proof fn lemma_temporary_render(c: BootstrapConfig)
    requires
        c.is_temporary(),
    ensures
        bootstrap_json(c) == temporary_json(c.language_language_bundle@),
{
    assert(string_views(c.trusted_agents@) =~= Seq::<Seq<char>>::empty());
    assert(string_views(c.known_link_languages@) =~= Seq::<Seq<char>>::empty());
}

/// Serializes a bootstrap config to its JSON text. The result is exactly
/// `bootstrap_json` of the config; this cannot fail.
pub fn render_bootstrap(c: &BootstrapConfig) -> (r: String)
    ensures
        r@ == bootstrap_json(*c),
{
    let mut out = String::new();
    out.append("{\"trusted_agents\":");
    append_json_string_array(&mut out, &c.trusted_agents);
    out.append(",\"known_link_languages\":");
    append_json_string_array(&mut out, &c.known_link_languages);
    out.append(",\"language_language_bundle\":");
    append_json_string(&mut out, c.language_language_bundle.as_str());
    out.append(",\"direct_message_language\":");
    append_json_string(&mut out, c.direct_message_language.as_str());
    out.append(",\"agent_language\":");
    append_json_string(&mut out, c.agent_language.as_str());
    out.append(",\"perspective_language\":");
    append_json_string(&mut out, c.perspective_language.as_str());
    out.append(",\"neighbourhood_language\":");
    append_json_string(&mut out, c.neighbourhood_language.as_str());
    out.append("}");
    assert(out@ =~= bootstrap_json(*c));
    out
}

} // verus!
