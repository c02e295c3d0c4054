//! What the bot does for each command: whether it animates, what it
//! fetches, and what it replies or reports once the fetch is over.

use vstd::prelude::*;
use crate::api::{endpoint_url, url_text, Resource};
use crate::commands::{command_of, dispatch, trim_of, Command};
use crate::format::{
    balance_text, campaigns_text, format_balance, format_campaigns, format_hackathons,
    format_pathways, format_progress, format_user_details, hackathons_text, pathways_text,
    progress_text, user_details_text,
};
use crate::messages::{CALENDAR_IMG_URL, CALENDAR_LINK, CALENDAR_MESSAGE, HELP_MESSAGE, INFO_MESSAGE};
use crate::models::{Campaigns, GetUserResponse, Hackathons, Pathways, UserBalance, UserProgress};
use crate::reply::{is_embed, Accent, Embed};

verus! {

/// The HTTP client the network layer issues requests with; it is only
/// carried here.
#[verifier::external_type_specification]
#[verifier::external_body]
pub struct ExClient(reqwest::Client);

/// The remote user every user-scoped request is made for, until chat users
/// are mapped to remote ones.
pub const DEFAULT_USER_ID: i32 = 1;

/// The bot's configuration: the client to fetch with, the API's base
/// address and the remote user id requests are made for.
pub struct Handler {
    pub http_client: reqwest::Client,
    pub base_url: String,
    pub user_id: i32,
}

/// A record or list received from the API.
pub enum Fetched {
    UserDetails(GetUserResponse),
    Balance(UserBalance),
    Progress(UserProgress),
    Campaigns(Vec<Campaigns>),
    Pathways(Vec<Pathways>),
    Hackathons(Vec<Hackathons>),
}

/// A failed fetch. Transport errors, error statuses and undecodable bodies
/// are not told apart.
#[derive(PartialEq, Eq, Structural, Clone, Copy, Debug)]
pub struct FetchFailed;

/// The outcome of serving a command.
pub enum Reaction {
    /// Deliver this envelope to the channel the command came from.
    Reply(Embed),
    /// Report this failure to the operator's log; the user gets no reply.
    ReportFailure(String),
}

/// What to do right after the animation has been started (if any).
pub enum Step {
    /// Nothing to fetch: react at once.
    Respond(Reaction),
    /// Fetch `resource` from `url`, then call `Handler::react`.
    Fetch { resource: Resource, url: String },
}

/// How a command is served.
pub struct Plan {
    pub command: Command,
    /// Whether the loading animation runs alongside.
    pub show_loading: bool,
    pub step: Step,
}

/// The resource a command fetches, if any.
pub open spec fn resource_of(c: Command) -> Option<Resource> {
    match c {
        Command::GetUsername => Some(Resource::UserDetails),
        Command::GetBalance => Some(Resource::UserBalance),
        Command::GetProfile => Some(Resource::UserProgress),
        Command::GetCampaigns => Some(Resource::FeaturedCampaigns),
        Command::GetPathways => Some(Resource::FeaturedPathways),
        Command::GetHackathons => Some(Resource::FeaturedHackathons),
        _ => None,
    }
}

/// Whether a command runs the loading animation: all but help and info.
pub open spec fn shows_loading(c: Command) -> bool {
    !(c is Help || c is Info)
}

/// The accent colour of a command's reply.
pub open spec fn accent_of(c: Command) -> Accent {
    match c {
        Command::Help => Accent::DarkGreen,
        Command::Info => Accent::Red,
        Command::GetUsername => Accent::DarkBlue,
        Command::GetBalance => Accent::DarkPurple,
        Command::GetProfile => Accent::DarkGold,
        Command::GetCampaigns => Accent::DarkOrange,
        Command::GetPathways => Accent::DarkTeal,
        Command::GetHackathons => Accent::DarkRed,
        Command::GetCalendar => Accent::DarkBlue,
    }
}

/// The calendar reply's body.
pub open spec fn calendar_text() -> Seq<char> {
    CALENDAR_MESSAGE@ + " [Monthly Calendar]("@ + CALENDAR_LINK@ + ")"@
}

/// The body of a reply that needs no fetch.
pub open spec fn static_text(c: Command) -> Seq<char> {
    match c {
        Command::Help => HELP_MESSAGE@,
        Command::Info => INFO_MESSAGE@,
        _ => calendar_text(),
    }
}

/// The image of a reply that needs no fetch.
pub open spec fn static_image(c: Command) -> Option<Seq<char>> {
    if c is GetCalendar {
        Some(CALENDAR_IMG_URL@)
    } else {
        None
    }
}

/// The operator log line for a failed fetch.
pub open spec fn failure_text(c: Command) -> Seq<char> {
    match c {
        Command::GetUsername => "Error getting user details"@,
        Command::GetBalance => "Error getting user balance"@,
        Command::GetProfile => "Error getting user profile"@,
        Command::GetCampaigns => "Error getting featured campaigns"@,
        Command::GetPathways => "Error getting featured pathways"@,
        _ => "Error getting upcoming hackathons"@,
    }
}

/// The operator log line when no valid user id is configured.
pub open spec fn invalid_user_text() -> Seq<char> {
    "Invalid user ID"@
}

/// The resource a fetched value is of.
pub open spec fn fetched_resource(f: Fetched) -> Resource {
    match f {
        Fetched::UserDetails(_) => Resource::UserDetails,
        Fetched::Balance(_) => Resource::UserBalance,
        Fetched::Progress(_) => Resource::UserProgress,
        Fetched::Campaigns(_) => Resource::FeaturedCampaigns,
        Fetched::Pathways(_) => Resource::FeaturedPathways,
        Fetched::Hackathons(_) => Resource::FeaturedHackathons,
    }
}

/// The reply body rendered from a fetched value.
pub open spec fn fetched_text(f: Fetched) -> Seq<char> {
    match f {
        Fetched::UserDetails(u) => user_details_text(u),
        Fetched::Balance(b) => balance_text(b),
        Fetched::Progress(p) => progress_text(p),
        Fetched::Campaigns(l) => campaigns_text(l@),
        Fetched::Pathways(l) => pathways_text(l@),
        Fetched::Hackathons(l) => hackathons_text(l@),
    }
}

/// Whether `r` is the reaction to `command` given the fetch outcome: the
/// rendered reply on success, a single failure report otherwise.
pub open spec fn is_reaction(command: Command, outcome: Result<Fetched, FetchFailed>, r: Reaction) -> bool {
    match outcome {
        Ok(f) => r matches Reaction::Reply(e) && is_embed(e, fetched_text(f), accent_of(command), None),
        Err(_) => r matches Reaction::ReportFailure(t) && t@ == failure_text(command),
    }
}

/// The resource `command` fetches, if any.
pub fn command_resource(command: Command) -> (r: Option<Resource>)
    ensures
        r == resource_of(command),
{
    match command {
        Command::GetUsername => Some(Resource::UserDetails),
        Command::GetBalance => Some(Resource::UserBalance),
        Command::GetProfile => Some(Resource::UserProgress),
        Command::GetCampaigns => Some(Resource::FeaturedCampaigns),
        Command::GetPathways => Some(Resource::FeaturedPathways),
        Command::GetHackathons => Some(Resource::FeaturedHackathons),
        _ => None,
    }
}

impl Fetched {
    /// The resource this value is of.
    pub fn resource(&self) -> (r: Resource)
        ensures
            r == fetched_resource(*self),
    {
        match self {
            Fetched::UserDetails(_) => Resource::UserDetails,
            Fetched::Balance(_) => Resource::UserBalance,
            Fetched::Progress(_) => Resource::UserProgress,
            Fetched::Campaigns(_) => Resource::FeaturedCampaigns,
            Fetched::Pathways(_) => Resource::FeaturedPathways,
            Fetched::Hackathons(_) => Resource::FeaturedHackathons,
        }
    }
}

impl Handler {
    /// A handler that fetches from `base_url` for the default user.
    pub fn new(http_client: reqwest::Client, base_url: String) -> (r: Handler)
        ensures
            r.base_url@ == base_url@,
            r.user_id == DEFAULT_USER_ID,
    {
        Handler { http_client, base_url, user_id: DEFAULT_USER_ID }
    }

    /// Whether `p` is how this handler serves `command`.
    pub open spec fn is_plan(&self, command: Command, p: Plan) -> bool {
        &&& p.command == command
        &&& p.show_loading == shows_loading(command)
        &&& match resource_of(command) {
            Some(res) => if res is UserDetails && self.user_id <= 0 {
                p.step matches Step::Respond(Reaction::ReportFailure(t)) && t@
                    == invalid_user_text()
            } else {
                p.step matches Step::Fetch { resource, url } && resource == res && url@
                    == url_text(self.base_url@, res, self.user_id as int)
            },
            None => p.step matches Step::Respond(Reaction::Reply(e)) && is_embed(
                e,
                static_text(command),
                accent_of(command),
                static_image(command),
            ),
        }
    }

    /// How this handler serves `command`.
    pub fn plan(&self, command: Command) -> (r: Plan)
        ensures
            self.is_plan(command, r),
    {
        let show_loading = match command {
            Command::Help | Command::Info => false,
            _ => true,
        };
        let resource = match command {
            Command::GetUsername => Resource::UserDetails,
            Command::GetBalance => Resource::UserBalance,
            Command::GetProfile => Resource::UserProgress,
            Command::GetCampaigns => Resource::FeaturedCampaigns,
            Command::GetPathways => Resource::FeaturedPathways,
            Command::GetHackathons => Resource::FeaturedHackathons,
            Command::Help => {
                let e = Embed::new(String::from_str(HELP_MESSAGE), Accent::DarkGreen);
                return Plan { command, show_loading, step: Step::Respond(Reaction::Reply(e)) };
            },
            Command::Info => {
                let e = Embed::new(String::from_str(INFO_MESSAGE), Accent::Red);
                return Plan { command, show_loading, step: Step::Respond(Reaction::Reply(e)) };
            },
            Command::GetCalendar => {
                let mut body = String::from_str(CALENDAR_MESSAGE);
                body.append(" [Monthly Calendar](");
                body.append(CALENDAR_LINK);
                body.append(")");
                let e = Embed::with_image(body, Accent::DarkBlue, CALENDAR_IMG_URL);
                return Plan { command, show_loading, step: Step::Respond(Reaction::Reply(e)) };
            },
        };
        if command == Command::GetUsername && self.user_id <= 0 {
            let t = String::from_str("Invalid user ID");
            return Plan { command, show_loading, step: Step::Respond(Reaction::ReportFailure(t)) };
        }
        let url = endpoint_url(self.base_url.as_str(), resource, self.user_id);
        Plan { command, show_loading, step: Step::Fetch { resource, url } }
    }

    /// The command a message's text selects and how it is served; `None`
    /// when the text, once trimmed, is no command token.
    pub fn message(&self, content: &str) -> (r: Option<Plan>)
        ensures
            match command_of(trim_of(content@)) {
                Some(c) => r matches Some(p) && self.is_plan(c, p),
                None => r is None,
            },
    {
        match dispatch(content) {
            Some(c) => Some(self.plan(c)),
            None => None,
        }
    }

    /// What to do once the fetch for `command` is over: reply with the
    /// rendered value, or report the failure and reply nothing.
    pub fn react(&self, command: Command, outcome: Result<Fetched, FetchFailed>) -> (r: Reaction)
        requires
            resource_of(command) is Some,
            outcome matches Ok(f) ==> Some(fetched_resource(f)) == resource_of(command),
        ensures
            is_reaction(command, outcome, r),
    {
        match outcome {
            Ok(f) => {
                let (body, accent) = match f {
                    Fetched::UserDetails(u) => (format_user_details(&u), Accent::DarkBlue),
                    Fetched::Balance(b) => (format_balance(&b), Accent::DarkPurple),
                    Fetched::Progress(p) => (format_progress(&p), Accent::DarkGold),
                    Fetched::Campaigns(l) => (format_campaigns(&l), Accent::DarkOrange),
                    Fetched::Pathways(l) => (format_pathways(&l), Accent::DarkTeal),
                    Fetched::Hackathons(l) => (format_hackathons(&l), Accent::DarkRed),
                };
                Reaction::Reply(Embed::new(body, accent))
            },
            Err(_) => {
                let t = match command {
                    Command::GetUsername => "Error getting user details",
                    Command::GetBalance => "Error getting user balance",
                    Command::GetProfile => "Error getting user profile",
                    Command::GetCampaigns => "Error getting featured campaigns",
                    Command::GetPathways => "Error getting featured pathways",
                    _ => "Error getting upcoming hackathons",
                };
                Reaction::ReportFailure(String::from_str(t))
            },
        }
    }
}

} // verus!
