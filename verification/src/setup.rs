//! Setting a repository up: the instructions file for agents, and what
//! initialisation reports.

use vstd::prelude::*;
use vstd::string::*;
use vstd::utf8::*;
use crate::text::{
    byte_prefix, byte_prefix_chars, contains_chars, contains_str, ends_with_char, occurs_at,
};

verus! {

/// What initialisation did with `AGENTS.md`.
#[derive(Debug, Clone, Copy, PartialEq, Eq, Structural)]
pub enum AgentsMdAction {
    Created,
    Updated,
    Skipped,
    Disabled,
}

impl AgentsMdAction {
    pub open spec fn spec_as_str(self) -> Seq<char> {
        match self {
            AgentsMdAction::Created => "created"@,
            AgentsMdAction::Updated => "updated"@,
            AgentsMdAction::Skipped => "skipped"@,
            AgentsMdAction::Disabled => "disabled"@,
        }
    }

    /// The action's name in reports.
    pub fn as_str(&self) -> (r: &'static str)
        ensures
            r@ == self.spec_as_str(),
    {
        match self {
            AgentsMdAction::Created => "created",
            AgentsMdAction::Updated => "updated",
            AgentsMdAction::Skipped => "skipped",
            AgentsMdAction::Disabled => "disabled",
        }
    }
}

/// The heading that marks the section as present.
pub open spec fn section_heading() -> Seq<char> {
    "## Grite"@
}

/// The file's new content when the section is appended: one blank line
/// separates it from what was there.
pub open spec fn appended_content(existing: Seq<char>, section: Seq<char>) -> Seq<char> {
    if existing.len() > 0 && existing.last() == '\n' {
        existing + "\n"@ + section
    } else {
        existing + "\n\n"@ + section
    }
}

/// What to do with `AGENTS.md`, given its content (`None` when the file does
/// not exist): create it with the section, leave it when it already has the
/// section's heading, or append the section. The second part is the content
/// to write, if any.
pub fn agents_md_update(existing: Option<&str>, section: &str) -> (r: (AgentsMdAction, Option<String>))
    ensures
        existing is None ==> r.0 == AgentsMdAction::Created && (r.1 matches Some(c) && c@ == section@),
        existing matches Some(c) ==> (if contains_chars(c@, section_heading()) {
            r.0 == AgentsMdAction::Skipped && r.1 is None
        } else {
            r.0 == AgentsMdAction::Updated && (r.1 matches Some(n) && n@ == appended_content(
                c@,
                section@,
            ))
        }),
{
    match existing {
        None => (AgentsMdAction::Created, Some(String::from_str(section))),
        Some(content) => {
            if contains_str(content, "## Grite") {
                return (AgentsMdAction::Skipped, None);
            }
            let mut n = String::from_str(content);
            if ends_with_char(content, '\n') {
                n.append("\n");
            } else {
                n.append("\n\n");
            }
            n.append(section);
            (AgentsMdAction::Updated, Some(n))
        },
    }
}

/// `pat` occurring in `b` occurs in `a + b`.
proof fn lemma_contains_suffix(a: Seq<char>, b: Seq<char>, pat: Seq<char>)
    requires
        contains_chars(b, pat),
    ensures
        contains_chars(a + b, pat),
{
    let i = choose|i: int| occurs_at(b, pat, i);
    assert((a + b).subrange(a.len() + i, a.len() + i + pat.len()) =~= b.subrange(i, i + pat.len()));
    assert(occurs_at(a + b, pat, a.len() + i));
}

/// Initialising twice adds the section once: whenever the section carries
/// its heading, the content written by a first run makes a second run
/// leave the file alone.
pub proof fn lemma_agents_md_idempotent(existing: Option<Seq<char>>, section: Seq<char>)
    requires
        contains_chars(section, section_heading()),
    ensures
        contains_chars(
            match existing {
                None => section,
                Some(c) => if contains_chars(c, section_heading()) {
                    c
                } else {
                    appended_content(c, section)
                },
            },
            section_heading(),
        ),
{
    match existing {
        None => {},
        Some(c) => {
            if !contains_chars(c, section_heading()) {
                if c.len() > 0 && c.last() == '\n' {
                    lemma_contains_suffix(c + "\n"@, section, section_heading());
                } else {
                    lemma_contains_suffix(c + "\n\n"@, section, section_heading());
                }
            }
        },
    }
}

/// The human-readable line about `AGENTS.md`, if any.
pub fn agents_md_message(action: AgentsMdAction) -> (r: Option<&'static str>)
    ensures
        action == AgentsMdAction::Created ==> (r matches Some(m) && m@
            == "Created AGENTS.md with grite instructions"@),
        action == AgentsMdAction::Updated ==> (r matches Some(m) && m@
            == "Updated AGENTS.md with grite section"@),
        action == AgentsMdAction::Skipped ==> (r matches Some(m) && m@
            == "AGENTS.md already contains grite section"@),
        action == AgentsMdAction::Disabled ==> r is None,
{
    match action {
        AgentsMdAction::Created => Some("Created AGENTS.md with grite instructions"),
        AgentsMdAction::Updated => Some("Updated AGENTS.md with grite section"),
        AgentsMdAction::Skipped => Some("AGENTS.md already contains grite section"),
        AgentsMdAction::Disabled => None,
    }
}

/// Whether initialisation provisioned a new actor or found one.
pub fn init_action(is_new: bool) -> (r: &'static str)
    ensures
        r@ == (if is_new {
            "created"@
        } else {
            "existing"@
        }),
{
    if is_new {
        "created"
    } else {
        "existing"
    }
}

/// The line initialisation prints, naming the actor by the first eight
/// bytes of its hex id.
pub fn init_message(is_new: bool, actor_id_hex: &str) -> (s: String)
    requires
        8 <= actor_id_hex.spec_bytes().len(),
        is_char_boundary(actor_id_hex.spec_bytes(), 8),
    ensures
        s@ == (if is_new {
            "Initialized grite with actor "@
        } else {
            "Already initialized with actor "@
        }) + byte_prefix_chars(actor_id_hex@, 8),
{
    let mut s = if is_new {
        String::from_str("Initialized grite with actor ")
    } else {
        String::from_str("Already initialized with actor ")
    };
    s.append(byte_prefix(actor_id_hex, 8));
    s
}

} // verus!
