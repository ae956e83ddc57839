//! The fixed texts that the service shows its clients.

use vstd::prelude::*;

verus! {

/// The main menu, shown when a client connects and whenever it is back from a panel.
pub const WELCOME_MENU: &'static str = "========================================\nWelcome to cloud-calc\n========================================\n1) Login\n2) Register\n3) Quit\nchoice>\n";

/// The menu of the panel for ordinary accounts.
pub const USER_PANEL_MENU: &'static str = "========================================\nUser Panel\n========================================\n1) Calculator\n2) My Usage\n3) My History\n4) Account Info\n5) Logout\nchoice>\n";

/// The menu of the panel for administrators.
pub const ADMIN_PANEL_MENU: &'static str = "========================================\nAdmin Panel\n========================================\n1) List users\n2) Create user\n3) Change user role\n4) Delete user\n5) View usage stats\n6) Back\nchoice>\n";

/// The banner of the calculator, ending in its first prompt.
pub const CALCULATOR_BANNER: &'static str = "--- Calculator ---\nType 'exit' to return.\nexpr> ";

} // verus!
