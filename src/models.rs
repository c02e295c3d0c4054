//! Records returned by the remote API.
//!
//! Each record carries the fields the API sends; only some of them are shown
//! to users. Decoding from JSON happens at the network edge.

use vstd::prelude::*;

verus! {

/// A user's account details.
pub struct GetUserResponse {
    pub id: i32,
    pub username: String,
    pub nationality: String,
    pub career_level: String,
    pub role: String,
    pub tech_stack: String,
}

/// A user's ledger; only `current_balance` is ever rendered.
pub struct UserBalance {
    pub id: i32,
    pub user_id: String,
    pub total_earnings: i32,
    pub total_withdrawn: i32,
    pub withdrawal_methods: String,
    pub current_balance: i32,
    pub created_at: String,
    pub updated_at: String,
}

/// A user's quest progress counters.
pub struct UserProgress {
    pub id: i32,
    pub user_id: String,
    pub submissions: i32,
    pub submitted: i32,
    pub rewarded: i32,
    pub total_quest_earings: i32,
}

/// One featured campaign.
pub struct Campaigns {
    pub id: i32,
    pub title: String,
    pub sub_title: String,
    pub quest_count: i32,
}

/// One featured learning pathway.
pub struct Pathways {
    pub id: i32,
    pub title: String,
    pub modules: i32,
    pub skills: i32,
}

/// One upcoming hackathon. `location` is a numeric code sent by the server.
pub struct Hackathons {
    pub id: i32,
    pub title: String,
    pub price: i32,
    pub participating: i32,
    pub location: i32,
}

} // verus!
