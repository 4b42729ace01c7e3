//! The message router: parses an inbound chat line, consults the command
//! registry, and decides the reply — either a direct response or a request
//! to run the external search-and-queue action first.

use vstd::prelude::*;
use vstd::string::StrSliceExecFns;
use crate::commands::CommandRegistry;
use crate::commands::bypasses_cooldown;
use crate::commands::lookup_spec;
use crate::commands::Command;
use crate::strutil::split_ws;
use crate::strutil::join_sp;
use crate::strutil::lower_of;
use crate::strutil::spec_replace_all;
use crate::strutil::split_whitespace_tokens;
use crate::strutil::join_tokens_from;
use crate::strutil::unicode_lowercase;
use crate::strutil::replace_all;

verus! {

/// A chat line recognised as a candidate command: the lower-cased first
/// token (including the marker) and the remaining tokens re-joined with
/// single spaces.
pub struct ParsedCommand {
    pub name: String,
    pub arguments: String,
}

/// What parsing a raw chat line yields: the lower-cased command token and
/// the normalized argument payload, or nothing if the line does not start
/// with the command marker.
pub open spec fn spec_parse(msg: Seq<char>) -> Option<(Seq<char>, Seq<char>)> {
    let ts = split_ws(msg);
    if ts.len() == 0 {
        None
    } else {
        let lowered = lower_of(ts[0]);
        if lowered.len() == 0 || lowered[0] != '!' {
            None
        } else {
            Some((lowered, join_sp(ts.skip(1))))
        }
    }
}

/// Parses one chat line into a candidate command invocation.
pub fn parse_command_text(msg: &str) -> (r: Option<ParsedCommand>)
    ensures
        match spec_parse(msg@) {
            None => r is None,
            Some(pair) => r matches Some(p) && p.name@ == pair.0 && p.arguments@ == pair.1,
        },
{
    let tokens = split_whitespace_tokens(msg);
    if tokens.len() == 0 {
        return None;
    }
    proof {
        assert(tokens.deep_view()[0] == tokens@[0]@);
    }
    let name = unicode_lowercase(tokens[0].as_str());
    if name.as_str().unicode_len() == 0 {
        return None;
    }
    if name.as_str().get_char(0) != '!' {
        return None;
    }
    let arguments = join_tokens_from(&tokens, 1);
    Some(ParsedCommand { name, arguments })
}

/// The response template after the sender-tag placeholder has been filled
/// in, when the command asks for it.
pub open spec fn tag_substituted(c: Command, sender: Seq<char>) -> Seq<char> {
    if c.requires_tag {
        spec_replace_all(c.response@, "<user>"@, sender)
    } else {
        c.response@
    }
}

/// The router's decision for one inbound message.
pub enum ReplyPlan {
    /// Nothing is sent back.
    NoReply,
    /// This text is sent back as-is.
    Reply(String),
    /// The external action must run first; its result is then substituted
    /// into the template by `finish_external_action`.
    ExternalAction { action: String, query: String, template: String },
}

/// Routes one private chat message at time `now`: parses it, performs the
/// rate-limited registry lookup, and produces the reply decision.
pub fn route_privmsg(reg: &mut CommandRegistry, sender: &str, msg: &str, now: i64) -> (r:
    ReplyPlan)
    ensures
        old(reg).wf() ==> final(reg).wf(),
        ({
            let cs = old(reg).commands@;
            match spec_parse(msg@) {
                None => r is NoReply && final(reg).commands@ == cs,
                Some(pair) => {
                    let argp = pair.1.len() > 0;
                    let lk = lookup_spec(cs, pair.0, argp, now);
                    &&& final(reg).commands@ == lk.0
                    &&& match lk.1 {
                        None => r is NoReply,
                        Some(c) => {
                            if bypasses_cooldown(c, argp) {
                                r matches ReplyPlan::Reply(s) && s@ == c.usage@
                            } else {
                                match c.api_call {
                                    None => r matches ReplyPlan::Reply(s) && s@
                                        == tag_substituted(c, sender@),
                                    Some(a) => r matches ReplyPlan::ExternalAction {
                                        action,
                                        query,
                                        template,
                                    } && action@ == a@ && query@ == pair.1 && template@
                                        == tag_substituted(c, sender@),
                                }
                            }
                        },
                    }
                },
            }
        }),
{
    let parsed = parse_command_text(msg);
    match parsed {
        None => ReplyPlan::NoReply,
        Some(p) => {
            let argp = p.arguments.as_str().unicode_len() > 0;
            match reg.lookup_at(p.name.as_str(), argp, now) {
                None => ReplyPlan::NoReply,
                Some(c) => {
                    if c.requires_arguments && !argp {
                        ReplyPlan::Reply(c.usage)
                    } else {
                        let template = if c.requires_tag {
                            replace_all(c.response.as_str(), "<user>", sender)
                        } else {
                            c.response
                        };
                        match c.api_call {
                            None => ReplyPlan::Reply(template),
                            Some(a) => ReplyPlan::ExternalAction {
                                action: a,
                                query: p.arguments,
                                template,
                            },
                        }
                    }
                },
            }
        },
    }
}

/// How the external search-and-queue action ended. The three cases are kept
/// distinct, even though the last two currently lead to the same silence.
pub enum SearchOutcome {
    /// A track was found and queued; its display form is carried here.
    Found(String),
    /// The search succeeded but returned no tracks.
    NoResults,
    /// The search or queue request failed.
    SearchFailed,
}

/// Completes an `ExternalAction` plan once the external call has ended:
/// a found track's display form replaces the result placeholder in the
/// template; no result and failure both yield silence, never an error.
pub fn finish_external_action(template: &str, outcome: &SearchOutcome) -> (r: Option<String>)
    ensures
        match outcome {
            SearchOutcome::Found(d) => r matches Some(s) && s@ == spec_replace_all(
                template@,
                "<song>"@,
                d@,
            ),
            SearchOutcome::NoResults => r is None,
            SearchOutcome::SearchFailed => r is None,
        },
{
    match outcome {
        SearchOutcome::Found(d) => Some(replace_all(template, "<song>", d.as_str())),
        SearchOutcome::NoResults => None,
        SearchOutcome::SearchFailed => None,
    }
}

} // verus!
