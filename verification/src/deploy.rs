//! What the process tells of itself: which build runs, and since when.

use vstd::prelude::*;
use vstd::string::*;
use crate::handler::{Handler, Message, MessageView};
use crate::text::{fence, fenced};

verus! {

/// How a build's tag is written: the tag, or a placeholder where the build
/// carries none.
pub open spec fn tag_text(tag: Option<&str>) -> Seq<char> {
    match tag {
        Some(name) => name@,
        None => "{no tag}"@,
    }
}

/// The marker posted once a deployment is up: the commit hash, fenced.
pub open spec fn deployed_marker(hash: Seq<char>) -> Seq<char> {
    fenced("deployed: "@ + hash)
}

/// The state line of the presence: the tag and the short commit hash.
pub open spec fn running_state(tag: Option<&str>, hash_short: Seq<char>) -> Seq<char> {
    "Running nanai10a/meufchrer @ "@ + tag_text(tag) + " ("@ + hash_short + ")"@
}

/// The name of the presence's activity.
pub open spec fn activity_name() -> Seq<char> {
    "{activity_name}"@
}

/// The fragment of the console that tells the tag, the commit hash with a
/// link to its tree, and the uptime.
pub open spec fn deployments_fragment(tag: Option<&str>, hash: Seq<char>, uptime: Seq<char>) -> Seq<
    char,
> {
    "<p>tag: "@ + tag_text(tag) + "</p><p>hash: <a href=\"https://github.com/nanai10a/meufchrer/tree/"@
        + hash + "\">"@ + hash + "</a></p><p>uptime: "@ + uptime + "</p>"@
}

/// What to do once the gateway reports the session ready: the marker to post
/// and the presence to show.
#[derive(Debug)]
pub struct Startup {
    pub marker: Message,
    pub activity_name: String,
    pub activity_state: String,
}

/// The mathematical view of a startup.
pub struct StartupView {
    pub marker: MessageView,
    pub activity_name: Seq<char>,
    pub activity_state: Seq<char>,
}

impl View for Startup {
    type V = StartupView;

    open spec fn view(&self) -> StartupView {
        StartupView {
            marker: self.marker@,
            activity_name: self.activity_name@,
            activity_state: self.activity_state@,
        }
    }
}

/// The tag of a build as text.
fn tag_or_placeholder<'a>(tag: Option<&'a str>) -> (text: &'a str)
    ensures
        text@ == tag_text(tag),
{
    match tag {
        Some(name) => name,
        None => "{no tag}",
    }
}

impl Handler {
    /// Prepares what follows the gateway's ready event for the build of commit
    /// `hash`, shortened to `hash_short`, tagged `tag` if at all: the deployed
    /// marker, bound for the record channel, and the presence.
    pub fn ready(&self, hash: &str, hash_short: &str, tag: Option<&str>) -> (startup: Startup)
        ensures
            startup@ == (StartupView {
                marker: MessageView {
                    channel_id: self.record_channel_id,
                    content: deployed_marker(hash@),
                },
                activity_name: activity_name(),
                activity_state: running_state(tag, hash_short@),
            }),
    {
        let mut line = String::from_str("deployed: ");
        line.append(hash);
        let marker = Message { channel_id: self.record_channel_id, content: fence(line.as_str()) };
        let mut state = String::from_str("Running nanai10a/meufchrer @ ");
        state.append(tag_or_placeholder(tag));
        state.append(" (");
        state.append(hash_short);
        state.append(")");
        Startup {
            marker,
            activity_name: String::from_str("{activity_name}"),
            activity_state: state,
        }
    }
}

/// Renders the console's deployment fragment for the build of commit `hash`,
/// tagged `tag` if at all, that has run for `uptime`.
pub fn deployments(tag: Option<&str>, hash: &str, uptime: &str) -> (body: String)
    ensures
        body@ == deployments_fragment(tag, hash@, uptime@),
{
    let mut body = String::from_str("<p>tag: ");
    body.append(tag_or_placeholder(tag));
    body.append("</p><p>hash: <a href=\"https://github.com/nanai10a/meufchrer/tree/");
    body.append(hash);
    body.append("\">");
    body.append(hash);
    body.append("</a></p><p>uptime: ");
    body.append(uptime);
    body.append("</p>");
    assert(body@ =~= deployments_fragment(tag, hash@, uptime@));
    body
}

} // verus!
