use stack_buddy::api::{endpoint_url, Resource};
use stack_buddy::commands::Command;
use stack_buddy::handler::{FetchFailed, Fetched, Handler, Plan, Reaction, Step, DEFAULT_USER_ID};
use stack_buddy::messages::{CALENDAR_IMG_URL, HELP_MESSAGE, INFO_MESSAGE};
use stack_buddy::models::{Campaigns, Hackathons, Pathways, UserBalance};
use stack_buddy::reply::{Accent, AUTHOR_NAME, THUMBNAIL_URL};

const BASE: &str = "https://api.example.test/api";

fn handler() -> Handler {
    Handler::new(reqwest::Client::new(), BASE.to_string())
}

fn balance(current: i32) -> UserBalance {
    UserBalance {
        id: 1,
        user_id: "u-1".to_string(),
        total_earnings: 0,
        total_withdrawn: 0,
        withdrawal_methods: String::new(),
        current_balance: current,
        created_at: String::new(),
        updated_at: String::new(),
    }
}

fn fetch_of(p: &Plan) -> (Resource, String) {
    match &p.step {
        Step::Fetch { resource, url } => (*resource, url.clone()),
        Step::Respond(_) => panic!("expected a fetch"),
    }
}

#[test]
fn default_user_is_one() {
    let h = handler();
    assert_eq!(h.user_id, DEFAULT_USER_ID);
    assert_eq!(DEFAULT_USER_ID, 1);
    assert_eq!(h.base_url, BASE);
}

#[test]
fn endpoint_addresses() {
    assert_eq!(endpoint_url(BASE, Resource::UserDetails, 1), format!("{}/get-user/1", BASE));
    assert_eq!(endpoint_url(BASE, Resource::UserBalance, 1), format!("{}/get-user-balance/1", BASE));
    assert_eq!(endpoint_url(BASE, Resource::UserProgress, 23), format!("{}/get-user-progress/23", BASE));
    assert_eq!(endpoint_url(BASE, Resource::FeaturedCampaigns, 1), format!("{}/stack-featured-campaigns", BASE));
    assert_eq!(endpoint_url(BASE, Resource::FeaturedPathways, 5), format!("{}/stack-featured-pathways", BASE));
    assert_eq!(endpoint_url(BASE, Resource::FeaturedHackathons, 1), format!("{}/stack-featured-hackathons", BASE));
}

#[test]
fn fetching_commands_animate_and_fetch() {
    let h = handler();
    let cases = [
        (Command::GetUsername, Resource::UserDetails, "/get-user/1"),
        (Command::GetBalance, Resource::UserBalance, "/get-user-balance/1"),
        (Command::GetProfile, Resource::UserProgress, "/get-user-progress/1"),
        (Command::GetCampaigns, Resource::FeaturedCampaigns, "/stack-featured-campaigns"),
        (Command::GetPathways, Resource::FeaturedPathways, "/stack-featured-pathways"),
        (Command::GetHackathons, Resource::FeaturedHackathons, "/stack-featured-hackathons"),
    ];
    for (c, r, path) in cases {
        let p = h.plan(c);
        assert_eq!(p.command, c);
        assert!(p.show_loading);
        assert_eq!(fetch_of(&p), (r, format!("{}{}", BASE, path)));
    }
}

#[test]
fn help_and_info_reply_at_once_without_animation() {
    let h = handler();
    for (c, text, accent) in [(Command::Help, HELP_MESSAGE, Accent::DarkGreen), (Command::Info, INFO_MESSAGE, Accent::Red)] {
        let p = h.plan(c);
        assert!(!p.show_loading);
        match p.step {
            Step::Respond(Reaction::Reply(e)) => {
                assert_eq!(e.description, text);
                assert_eq!(e.accent, accent);
                assert_eq!(e.author, AUTHOR_NAME);
                assert_eq!(e.thumbnail, THUMBNAIL_URL);
                assert_eq!(e.image, None);
            }
            _ => panic!("expected an immediate reply"),
        }
    }
}

#[test]
fn calendar_replies_with_image_after_animation() {
    let p = handler().plan(Command::GetCalendar);
    assert!(p.show_loading);
    match p.step {
        Step::Respond(Reaction::Reply(e)) => {
            assert_eq!(
                e.description,
                "\n            Check out the latest activities happening on the **StackUp platform**, the platform for developers, where you can learn, earn and create projects.\n         [Monthly Calendar](https://stackup.dev/calendar)"
            );
            assert_eq!(e.accent, Accent::DarkBlue);
            assert_eq!(e.image, Some(CALENDAR_IMG_URL.to_string()));
            assert_eq!(e.image.as_deref(), Some("https://i.imgur.com/hxxfDQ9.png"));
        }
        _ => panic!("expected an immediate reply"),
    }
}

#[test]
fn invalid_user_id_is_reported_without_fetch() {
    let mut h = handler();
    h.user_id = 0;
    let p = h.plan(Command::GetUsername);
    assert!(p.show_loading);
    match p.step {
        Step::Respond(Reaction::ReportFailure(t)) => assert_eq!(t, "Invalid user ID"),
        _ => panic!("expected a failure report"),
    }
    let (_, url) = fetch_of(&h.plan(Command::GetBalance));
    assert_eq!(url, format!("{}/get-user-balance/0", BASE));
}

#[test]
fn message_dispatches_then_plans() {
    let h = handler();
    assert!(h.message("!nope").is_none());
    assert!(h.message("").is_none());
    assert!(h.message("!Help").is_none());
    let p = h.message(" !get-campaigns ").unwrap();
    assert_eq!(p.command, Command::GetCampaigns);
    assert_eq!(fetch_of(&p).0, Resource::FeaturedCampaigns);
}

#[test]
fn balance_of_forty_two_is_replied() {
    match handler().react(Command::GetBalance, Ok(Fetched::Balance(balance(42)))) {
        Reaction::Reply(e) => {
            assert_eq!(e.description, "Your StackUp balance is: $42");
            assert_eq!(e.accent, Accent::DarkPurple);
            assert_eq!(e.image, None);
        }
        Reaction::ReportFailure(_) => panic!("expected a reply"),
    }
}

#[test]
fn empty_campaign_list_is_replied_as_header() {
    match handler().react(Command::GetCampaigns, Ok(Fetched::Campaigns(Vec::new()))) {
        Reaction::Reply(e) => {
            assert_eq!(e.description, "**Featured campaigns:** \n\n");
            assert_eq!(e.accent, Accent::DarkOrange);
        }
        Reaction::ReportFailure(_) => panic!("expected a reply"),
    }
}

#[test]
fn failed_fetch_is_reported_not_replied() {
    let h = handler();
    let cases = [
        (Command::GetUsername, "Error getting user details"),
        (Command::GetBalance, "Error getting user balance"),
        (Command::GetProfile, "Error getting user profile"),
        (Command::GetCampaigns, "Error getting featured campaigns"),
        (Command::GetPathways, "Error getting featured pathways"),
        (Command::GetHackathons, "Error getting upcoming hackathons"),
    ];
    for (c, text) in cases {
        match h.react(c, Err(FetchFailed)) {
            Reaction::ReportFailure(t) => assert_eq!(t, text),
            Reaction::Reply(_) => panic!("a failed fetch must not be replied"),
        }
    }
}

#[test]
fn pathways_and_hackathons_from_two_channels_are_independent() {
    let h = handler();
    let p1 = h.message("!get-pathways").unwrap();
    let p2 = h.message("!get-hackathons").unwrap();
    assert_eq!(fetch_of(&p1).0, Resource::FeaturedPathways);
    assert_eq!(fetch_of(&p2).0, Resource::FeaturedHackathons);
    let r2 = h.react(
        Command::GetHackathons,
        Ok(Fetched::Hackathons(vec![Hackathons {
            id: 1,
            title: "H".to_string(),
            price: 5,
            participating: 6,
            location: 7,
        }])),
    );
    let r1 = h.react(
        Command::GetPathways,
        Ok(Fetched::Pathways(vec![Pathways { id: 2, title: "P".to_string(), modules: 1, skills: 2 }])),
    );
    match (r1, r2) {
        (Reaction::Reply(a), Reaction::Reply(b)) => {
            assert_eq!(a.description, "**Featured pathways:** \n\n**Title:** P\n**Modules:** 1\n**Skills:** 2\n\n");
            assert_eq!(b.description, "**Upcoming hackathons:** \n\n**Title:** H\n**Price:** $5\n**Participating:** 6\n**Location:** 7\n\n");
            assert_eq!(a.accent, Accent::DarkTeal);
            assert_eq!(b.accent, Accent::DarkRed);
        }
        _ => panic!("expected two replies"),
    }
}

#[test]
fn campaigns_reply_uses_campaign_template() {
    let list = vec![Campaigns { id: 5, title: "T".to_string(), sub_title: "S".to_string(), quest_count: 2 }];
    match handler().react(Command::GetCampaigns, Ok(Fetched::Campaigns(list))) {
        Reaction::Reply(e) => assert_eq!(
            e.description,
            "**Featured campaigns:** \n\n**Title:** T\n**Subtitle:** S\n**Quest Count:** 2\n\n"
        ),
        _ => panic!("expected a reply"),
    }
}
