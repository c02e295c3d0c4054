//! Rendering of fetched records into the text of a reply.

use vstd::prelude::*;
use crate::models::{Campaigns, GetUserResponse, Hackathons, Pathways, UserBalance, UserProgress};
use crate::text::{int_text, push_decimal};

verus! {

/// Text of the user-details reply.
pub open spec fn user_details_text(u: GetUserResponse) -> Seq<char> {
    "ID: "@ + int_text(u.id as int) + "\nUsername: "@ + u.username@ + "\nNationality: "@
        + u.nationality@ + "\nCareer Level: "@ + u.career_level@ + "\nRole: "@ + u.role@
        + "\nTech Stacks: "@ + u.tech_stack@
}

/// Text of the balance reply.
pub open spec fn balance_text(b: UserBalance) -> Seq<char> {
    "Your StackUp balance is: $"@ + int_text(b.current_balance as int)
}

/// Text of the progress reply.
pub open spec fn progress_text(p: UserProgress) -> Seq<char> {
    "Submissions: "@ + int_text(p.submissions as int) + "\nSubmitted: "@ + int_text(
        p.submitted as int,
    ) + "\nRewarded: "@ + int_text(p.rewarded as int) + "\nTotal Earnings: $"@ + int_text(
        p.total_quest_earings as int,
    )
}

/// The block shown for one campaign.
pub open spec fn campaign_block(c: Campaigns) -> Seq<char> {
    "**Title:** "@ + c.title@ + "\n**Subtitle:** "@ + c.sub_title@ + "\n**Quest Count:** "@
        + int_text(c.quest_count as int) + "\n\n"@
}

/// The blocks of a campaign list, in list order.
pub open spec fn campaign_blocks(s: Seq<Campaigns>) -> Seq<char>
    decreases s.len(),
{
    if s.len() == 0 {
        Seq::empty()
    } else {
        campaign_blocks(s.drop_last()) + campaign_block(s.last())
    }
}

/// Text of the campaign-list reply: the header, then one block per campaign.
pub open spec fn campaigns_text(s: Seq<Campaigns>) -> Seq<char> {
    "**Featured campaigns:** \n\n"@ + campaign_blocks(s)
}

/// The block shown for one pathway.
pub open spec fn pathway_block(p: Pathways) -> Seq<char> {
    "**Title:** "@ + p.title@ + "\n**Modules:** "@ + int_text(p.modules as int)
        + "\n**Skills:** "@ + int_text(p.skills as int) + "\n\n"@
}

/// The blocks of a pathway list, in list order.
pub open spec fn pathway_blocks(s: Seq<Pathways>) -> Seq<char>
    decreases s.len(),
{
    if s.len() == 0 {
        Seq::empty()
    } else {
        pathway_blocks(s.drop_last()) + pathway_block(s.last())
    }
}

/// Text of the pathway-list reply: the header, then one block per pathway.
pub open spec fn pathways_text(s: Seq<Pathways>) -> Seq<char> {
    "**Featured pathways:** \n\n"@ + pathway_blocks(s)
}

/// The block shown for one hackathon.
pub open spec fn hackathon_block(h: Hackathons) -> Seq<char> {
    "**Title:** "@ + h.title@ + "\n**Price:** $"@ + int_text(h.price as int)
        + "\n**Participating:** "@ + int_text(h.participating as int) + "\n**Location:** "@
        + int_text(h.location as int) + "\n\n"@
}

/// The blocks of a hackathon list, in list order.
pub open spec fn hackathon_blocks(s: Seq<Hackathons>) -> Seq<char>
    decreases s.len(),
{
    if s.len() == 0 {
        Seq::empty()
    } else {
        hackathon_blocks(s.drop_last()) + hackathon_block(s.last())
    }
}

/// Text of the hackathon-list reply: the header, then one block per hackathon.
pub open spec fn hackathons_text(s: Seq<Hackathons>) -> Seq<char> {
    "**Upcoming hackathons:** \n\n"@ + hackathon_blocks(s)
}

/// An empty list renders as its header line alone, with no item blocks.
pub proof fn lemma_empty_list_is_header()
    ensures
        campaigns_text(Seq::empty()) == "**Featured campaigns:** \n\n"@,
        pathways_text(Seq::empty()) == "**Featured pathways:** \n\n"@,
        hackathons_text(Seq::empty()) == "**Upcoming hackathons:** \n\n"@,
{
    assert(campaigns_text(Seq::empty()) =~= "**Featured campaigns:** \n\n"@);
    assert(pathways_text(Seq::empty()) =~= "**Featured pathways:** \n\n"@);
    assert(hackathons_text(Seq::empty()) =~= "**Upcoming hackathons:** \n\n"@);
}

/// Renders a user's account details.
pub fn format_user_details(u: &GetUserResponse) -> (r: String)
    ensures
        r@ == user_details_text(*u),
{
    let mut out = String::new();
    out.append("ID: ");
    push_decimal(&mut out, u.id);
    out.append("\nUsername: ");
    out.append(u.username.as_str());
    out.append("\nNationality: ");
    out.append(u.nationality.as_str());
    out.append("\nCareer Level: ");
    out.append(u.career_level.as_str());
    out.append("\nRole: ");
    out.append(u.role.as_str());
    out.append("\nTech Stacks: ");
    out.append(u.tech_stack.as_str());
    proof {
        assert(out@ =~= user_details_text(*u));
    }
    out
}

/// Renders a user's balance.
pub fn format_balance(b: &UserBalance) -> (r: String)
    ensures
        r@ == balance_text(*b),
{
    let mut out = String::new();
    out.append("Your StackUp balance is: $");
    push_decimal(&mut out, b.current_balance);
    proof {
        assert(out@ =~= balance_text(*b));
    }
    out
}

/// Renders a user's progress counters.
pub fn format_progress(p: &UserProgress) -> (r: String)
    ensures
        r@ == progress_text(*p),
{
    let mut out = String::new();
    out.append("Submissions: ");
    push_decimal(&mut out, p.submissions);
    out.append("\nSubmitted: ");
    push_decimal(&mut out, p.submitted);
    out.append("\nRewarded: ");
    push_decimal(&mut out, p.rewarded);
    out.append("\nTotal Earnings: $");
    push_decimal(&mut out, p.total_quest_earings);
    proof {
        assert(out@ =~= progress_text(*p));
    }
    out
}

/// Renders the featured-campaign list.
pub fn format_campaigns(list: &Vec<Campaigns>) -> (r: String)
    ensures
        r@ == campaigns_text(list@),
{
    let mut out = String::new();
    out.append("**Featured campaigns:** \n\n");
    let mut i: usize = 0;
    while i < list.len()
        invariant
            i <= list@.len(),
            out@ == "**Featured campaigns:** \n\n"@ + campaign_blocks(list@.subrange(0, i as int)),
        decreases list@.len() - i,
    {
        let c = &list[i];
        let ghost before = out@;
        out.append("**Title:** ");
        out.append(c.title.as_str());
        out.append("\n**Subtitle:** ");
        out.append(c.sub_title.as_str());
        out.append("\n**Quest Count:** ");
        push_decimal(&mut out, c.quest_count);
        out.append("\n\n");
        proof {
            let s = list@.subrange(0, i as int + 1);
            assert(s.drop_last() =~= list@.subrange(0, i as int));
            assert(out@ =~= before + campaign_block(*c));
        }
        i = i + 1;
    }
    proof {
        assert(list@.subrange(0, i as int) =~= list@);
    }
    out
}

/// Renders the featured-pathway list.
pub fn format_pathways(list: &Vec<Pathways>) -> (r: String)
    ensures
        r@ == pathways_text(list@),
{
    let mut out = String::new();
    out.append("**Featured pathways:** \n\n");
    let mut i: usize = 0;
    while i < list.len()
        invariant
            i <= list@.len(),
            out@ == "**Featured pathways:** \n\n"@ + pathway_blocks(list@.subrange(0, i as int)),
        decreases list@.len() - i,
    {
        let p = &list[i];
        let ghost before = out@;
        out.append("**Title:** ");
        out.append(p.title.as_str());
        out.append("\n**Modules:** ");
        push_decimal(&mut out, p.modules);
        out.append("\n**Skills:** ");
        push_decimal(&mut out, p.skills);
        out.append("\n\n");
        proof {
            let s = list@.subrange(0, i as int + 1);
            assert(s.drop_last() =~= list@.subrange(0, i as int));
            assert(out@ =~= before + pathway_block(*p));
        }
        i = i + 1;
    }
    proof {
        assert(list@.subrange(0, i as int) =~= list@);
    }
    out
}

/// Renders the upcoming-hackathon list.
pub fn format_hackathons(list: &Vec<Hackathons>) -> (r: String)
    ensures
        r@ == hackathons_text(list@),
{
    let mut out = String::new();
    out.append("**Upcoming hackathons:** \n\n");
    let mut i: usize = 0;
    while i < list.len()
        invariant
            i <= list@.len(),
            out@ == "**Upcoming hackathons:** \n\n"@ + hackathon_blocks(
                list@.subrange(0, i as int),
            ),
        decreases list@.len() - i,
    {
        let h = &list[i];
        let ghost before = out@;
        out.append("**Title:** ");
        out.append(h.title.as_str());
        out.append("\n**Price:** $");
        push_decimal(&mut out, h.price);
        out.append("\n**Participating:** ");
        push_decimal(&mut out, h.participating);
        out.append("\n**Location:** ");
        push_decimal(&mut out, h.location);
        out.append("\n\n");
        proof {
            let s = list@.subrange(0, i as int + 1);
            assert(s.drop_last() =~= list@.subrange(0, i as int));
            assert(out@ =~= before + hackathon_block(*h));
        }
        i = i + 1;
    }
    proof {
        assert(list@.subrange(0, i as int) =~= list@);
    }
    out
}

} // verus!
