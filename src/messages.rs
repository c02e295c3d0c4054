//! Fixed reply texts that do not depend on any fetch.

use vstd::prelude::*;

verus! {

/// The reply to the help command: the list of commands.
pub const HELP_MESSAGE: &'static str = "
**🌟 GM Stackies! 🌟**

I'm your **go-to stack-buddy**! Want to get information from the StackUp platform? Here are my commands:

────────────────────────

**📋 Commands:**

• **`!help`** - *Get a list of all commands.*
• **`!info`** - *Learn more about what I can do.*
• **`!get-username`** - *Retrieve your StackUp username.*
• **`!get-balance`** - *Check your StackUp balance.*
• **`!get-profile`** - *Check your StackUp profile.*
• **`!get-campaigns`** - *View Featured campaigns.* 
• **`!get-pathways`** - *View various resources for various tracks.* 
• **`!get-hackathons`** - *See upcoming hackathons.*
• **`!get-calendar`** - *Access the StackUp calendar.*

────────────────────────

Let's get stacking! 📚

— **Stack-Buddy** 🤖
";

/// The reply to the info command: what the bot is for.
pub const INFO_MESSAGE: &'static str = "
**Hello!** I'm **Stack-Buddy**, your personal assistant for all things **StackUp**.  
I serve as an intermediary between you and the StackUp platform, making it easy to get the information 
you need directly from the StackUp website.

With a few simple commands, I can fetch and display the latest updates,details, and resources from StackUp
right here for you.

**Features:**

📜 **Information Fetching:** Get the latest details and updates from StackUp.  
🔍 **Resource Access:** Quickly access important resources and documents.  
🛠️ **User Assistance:** Providing support and guidance for StackUp-related queries.

*Just type a command, and I'll do the rest!*

— **Stack-Buddy** 🤖
";

/// The calendar's introductory sentence.
pub const CALENDAR_MESSAGE: &'static str = "\n            Check out the latest activities happening on the **StackUp platform**, the platform for developers, where you can learn, earn and create projects.\n        ";

/// Where the monthly calendar is published.
pub const CALENDAR_LINK: &'static str = "https://stackup.dev/calendar";

/// The calendar image shown with the calendar reply.
pub const CALENDAR_IMG_URL: &'static str = "https://i.imgur.com/hxxfDQ9.png";

} // verus!
