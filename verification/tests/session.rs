use cloud_calc::auth::{AuthError, AuthUser};
use cloud_calc::menu::{ADMIN_PANEL_MENU, CALCULATOR_BANNER, USER_PANEL_MENU, WELCOME_MENU};
use cloud_calc::session::{Action, Event, HistoryEntry, Session, UsageRow, UserListing};

fn w(t: &str) -> Action {
    Action::Write(t.to_string())
}

fn line(t: &str) -> Event {
    Event::Line(t.to_string())
}

fn feed(s: Session, e: Event) -> (Session, Vec<Action>) {
    s.step(e)
}

fn user(id: i32, name: &str, role: &str) -> AuthUser {
    AuthUser { id, username: name.to_string(), role: role.to_string() }
}

fn logged_in(role: &str) -> Session {
    let (s, _) = Session::start();
    let (s, _) = feed(s, line("1\n"));
    let (s, _) = feed(s, line("carol\n"));
    let (s, _) = feed(s, line("pw\n"));
    let (s, _) = feed(s, Event::LoginResult(Ok(user(5, "carol", role))));
    s
}

#[test]
fn start_shows_the_welcome_menu() {
    let (s, a) = Session::start();
    assert_eq!(a, vec![w(WELCOME_MENU)]);
    assert!(!s.is_closed());
    assert!(WELCOME_MENU.contains("Welcome to cloud-calc"));
}

#[test]
fn login_prompts_then_asks_for_login() {
    let (s, _) = Session::start();
    let (s, a) = feed(s, line(" 1 \r\n"));
    assert_eq!(a, vec![w("--- Login ---\nUsername: ")]);
    let (s, a) = feed(s, line("  carol \n"));
    assert_eq!(a, vec![w("Password: ")]);
    let (_, a) = feed(s, line("pw \n"));
    assert_eq!(
        a,
        vec![Action::Login { username: "carol".to_string(), password: "pw".to_string() }]
    );
}

#[test]
fn successful_login_opens_the_user_panel() {
    let (s, _) = Session::start();
    let (s, _) = feed(s, line("1\n"));
    let (s, _) = feed(s, line("carol\n"));
    let (s, _) = feed(s, line("pw\n"));
    let (_, a) = feed(s, Event::LoginResult(Ok(user(5, "carol", "user"))));
    assert_eq!(a, vec![w("Login successful! Role: user\n"), w(USER_PANEL_MENU)]);
}

#[test]
fn admin_login_opens_the_admin_panel() {
    let (s, _) = Session::start();
    let (s, _) = feed(s, line("1\n"));
    let (s, _) = feed(s, line("root\n"));
    let (s, _) = feed(s, line("pw\n"));
    let (_, a) = feed(s, Event::LoginResult(Ok(user(1, "root", "admin"))));
    assert_eq!(a, vec![w("Login successful! Role: admin\n"), w(ADMIN_PANEL_MENU)]);
}

#[test]
fn failed_login_returns_to_the_menu() {
    let (s, _) = Session::start();
    let (s, _) = feed(s, line("1\n"));
    let (s, _) = feed(s, line("carol\n"));
    let (s, _) = feed(s, line("bad\n"));
    let (s, a) = feed(s, Event::LoginResult(Err(AuthError::InvalidPassword)));
    assert_eq!(a, vec![w("Login failed: Invalid password\nchoice>\n")]);
    let (_, a) = feed(s, line("9\n"));
    assert_eq!(a, vec![w("Invalid choice.\nchoice>\n")]);
}

#[test]
fn end_of_input_while_typing_reads_as_empty() {
    let (s, _) = Session::start();
    let (s, _) = feed(s, line("1\n"));
    let (s, _) = feed(s, Event::Eof);
    let (_, a) = feed(s, Event::Eof);
    assert_eq!(
        a,
        vec![Action::Login { username: String::new(), password: String::new() }]
    );
}

#[test]
fn registration_flow() {
    let (s, _) = Session::start();
    let (s, a) = feed(s, line("2\n"));
    assert_eq!(a, vec![w("--- Register ---\nChoose username: ")]);
    let (s, a) = feed(s, line("dave\n"));
    assert_eq!(a, vec![w("Choose password: ")]);
    let (s, a) = feed(s, line("pw1\n"));
    assert_eq!(a, vec![w("Confirm password: ")]);
    let (s, a) = feed(s, line("pw2\n"));
    assert_eq!(
        a,
        vec![Action::Register {
            username: "dave".to_string(),
            password: "pw1".to_string(),
            confirm: "pw2".to_string()
        }]
    );
    let (s, a) = feed(s, Event::RegistrationResult(Err(AuthError::PasswordsDoNotMatch)));
    assert_eq!(a, vec![w("Register failed: Passwords do not match\nchoice>\n")]);
    let (s, _) = feed(s, line("2\n"));
    let (s, _) = feed(s, line("dave\n"));
    let (s, _) = feed(s, line("pw\n"));
    let (s, _) = feed(s, line("pw\n"));
    let (_, a) = feed(s, Event::RegistrationResult(Ok(())));
    assert_eq!(a, vec![w("Account created!\nchoice>\n")]);
}

#[test]
fn quit_and_end_of_input_close_the_session() {
    let (s, _) = Session::start();
    let (s, a) = feed(s, line("3\n"));
    assert_eq!(a, vec![w("Goodbye.\n"), Action::Disconnect]);
    assert!(s.is_closed());
    let (s, a) = feed(s, line("1\n"));
    assert!(a.is_empty());
    assert!(s.is_closed());
    let (s, _) = Session::start();
    let (s, a) = feed(s, Event::Eof);
    assert_eq!(a, vec![Action::Disconnect]);
    assert!(s.is_closed());
}

#[test]
fn user_panel_choices() {
    let s = logged_in("user");
    let (s, a) = feed(s, line("4\n"));
    assert_eq!(a, vec![w("Your user ID: 5\n"), w(USER_PANEL_MENU)]);
    let (s, a) = feed(s, line("2\n"));
    assert_eq!(a, vec![Action::FetchUsage { user_id: 5 }]);
    let (s, a) = feed(
        s,
        Event::UsageReport { cpu_seconds: "0.25".to_string(), ram_bytes: 4096, calc_count: 3 },
    );
    assert_eq!(
        a,
        vec![w("CPU: 0.25 sec\nRAM: 4096 bytes\nCalculations: 3\n"), w(USER_PANEL_MENU)]
    );
    let (s, a) = feed(s, line("3\n"));
    assert_eq!(a, vec![Action::FetchHistory { user_id: 5 }]);
    let history = vec![
        HistoryEntry { expression: "1+1".to_string(), result: "2".to_string() },
        HistoryEntry { expression: "2*3".to_string(), result: "6".to_string() },
    ];
    let (s, a) = feed(s, Event::HistoryReport(history));
    assert_eq!(a, vec![w("1+1 = 2\n"), w("2*3 = 6\n"), w(USER_PANEL_MENU)]);
    let (s, a) = feed(s, line("x\n"));
    assert_eq!(a, vec![w("Invalid choice.\n"), w(USER_PANEL_MENU)]);
    let (s, a) = feed(s, line("5\n"));
    assert_eq!(a, vec![w("Logging out...\n"), w(WELCOME_MENU)]);
    let (_, a) = feed(s, line("3\n"));
    assert_eq!(a, vec![w("Goodbye.\n"), Action::Disconnect]);
}

#[test]
fn calculator_flow() {
    let s = logged_in("user");
    let (s, a) = feed(s, line("1\n"));
    assert_eq!(a, vec![w(CALCULATOR_BANNER)]);
    let (s, a) = feed(s, line(" 2+2 \n"));
    assert_eq!(a, vec![Action::Evaluate { expression: "2+2".to_string() }]);
    let (s, a) = feed(s, Event::Evaluation { result: Some("4".to_string()), ram_bytes: 8192 });
    assert_eq!(a, vec![Action::AddUsage { user_id: 5, ram_bytes: 8192, calc_count: 1 }]);
    let (s, a) = feed(s, Event::Stored);
    assert_eq!(
        a,
        vec![Action::RecordCalculation {
            user_id: 5,
            expression: "2+2".to_string(),
            result: "4".to_string()
        }]
    );
    let (s, a) = feed(s, Event::Stored);
    assert_eq!(a, vec![w("= 4\nexpr> ")]);
    let (s, _) = feed(s, line("2+\n"));
    let (s, a) = feed(s, Event::Evaluation { result: None, ram_bytes: 0 });
    assert_eq!(a, vec![w("Invalid expression.\nexpr> ")]);
    let (s, a) = feed(s, line("exit\n"));
    assert_eq!(a, vec![w(USER_PANEL_MENU)]);
    let (s, _) = feed(s, line("1\n"));
    let (s, a) = feed(s, Event::Eof);
    assert_eq!(a, vec![Action::Abort("Client disconnected".to_string())]);
    assert!(s.is_closed());
}

#[test]
fn admin_panel_choices() {
    let s = logged_in("admin");
    let (s, a) = feed(s, line("1\n"));
    assert_eq!(a, vec![Action::ListUsers]);
    let users = vec![
        UserListing { id: 1, username: "root".to_string(), role: "admin".to_string() },
        UserListing { id: -3, username: "x".to_string(), role: "user".to_string() },
    ];
    let (s, a) = feed(s, Event::UserList(users));
    assert_eq!(a, vec![w("ID: 1, root (admin)\n"), w("ID: -3, x (user)\n"), w(ADMIN_PANEL_MENU)]);
    let (s, a) = feed(s, line("2\n"));
    assert_eq!(a, vec![w("New username: ")]);
    let (s, a) = feed(s, line("erin\n"));
    assert_eq!(a, vec![w("Password: ")]);
    let (s, a) = feed(s, line("pw\n"));
    assert_eq!(a, vec![w("Role (user/admin): ")]);
    let (s, a) = feed(s, line("admin\n"));
    assert_eq!(
        a,
        vec![Action::CreateUser {
            username: "erin".to_string(),
            password: "pw".to_string(),
            role: "admin".to_string()
        }]
    );
    let (s, a) = feed(s, Event::CreationResult(Err(AuthError::Database("duplicate key".to_string()))));
    assert_eq!(a, vec![w("Failed: duplicate key\n"), w(ADMIN_PANEL_MENU)]);
    let (s, _) = feed(s, line("2\n"));
    let (s, _) = feed(s, line("f\n"));
    let (s, _) = feed(s, line("p\n"));
    let (s, _) = feed(s, line("user\n"));
    let (s, a) = feed(s, Event::CreationResult(Ok(())));
    assert_eq!(a, vec![w("User created.\n"), w(ADMIN_PANEL_MENU)]);
    let (s, a) = feed(s, line("3\n"));
    assert_eq!(a, vec![w("User ID to change role: ")]);
    let (s, a) = feed(s, line(" 12 \n"));
    assert_eq!(a, vec![w("New role (user/admin): ")]);
    let (s, a) = feed(s, line("admin\n"));
    assert_eq!(a, vec![Action::UpdateRole { user_id: 12, role: "admin".to_string() }]);
    let (s, a) = feed(s, Event::Stored);
    assert_eq!(a, vec![w("Role updated.\n"), w(ADMIN_PANEL_MENU)]);
    let (s, a) = feed(s, line("4\n"));
    assert_eq!(a, vec![w("User ID to delete: ")]);
    let (s, a) = feed(s, line("abc\n"));
    assert_eq!(a, vec![Action::DeleteUser { user_id: -1 }]);
    let (s, a) = feed(s, Event::Stored);
    assert_eq!(a, vec![w("User deleted.\n"), w(ADMIN_PANEL_MENU)]);
    let (s, a) = feed(s, line("5\n"));
    assert_eq!(a, vec![Action::FetchUsageTable]);
    let rows = vec![UsageRow {
        username: "carol".to_string(),
        cpu_seconds: "1.5".to_string(),
        ram_bytes: 1024,
        calc_count: 9,
    }];
    let (s, a) = feed(s, Event::UsageTable(rows));
    assert_eq!(
        a,
        vec![w("carol: CPU=1.5 sec, RAM=1024 bytes, Calcs=9\n"), w(ADMIN_PANEL_MENU)]
    );
    let (s, a) = feed(s, line("7\n"));
    assert_eq!(a, vec![w("Invalid choice.\n"), w(ADMIN_PANEL_MENU)]);
    let (_, a) = feed(s, line("6\n"));
    assert_eq!(a, vec![w("Back to main menu.\n"), w(WELCOME_MENU)]);
}

#[test]
fn ordinary_account_gets_no_admin_actions() {
    let s = logged_in("user");
    let (s, a) = feed(s, line("6\n"));
    assert_eq!(a, vec![w("Invalid choice.\n"), w(USER_PANEL_MENU)]);
    let (_, a) = feed(s, line("1\n"));
    assert_eq!(a, vec![w(CALCULATOR_BANNER)]);
}

#[test]
fn input_is_not_read_while_waiting() {
    let s = logged_in("user");
    let (s, _) = feed(s, line("2\n"));
    let (s, a) = feed(s, line("5\n"));
    assert!(a.is_empty());
    let (_, a) = feed(s, Event::UsageReport { cpu_seconds: "0".to_string(), ram_bytes: 0, calc_count: 0 });
    assert_eq!(a.len(), 2);
}

#[test]
fn replies_that_were_not_asked_for_are_ignored() {
    let (s, _) = Session::start();
    let (s, a) = feed(s, Event::LoginResult(Ok(user(1, "root", "admin"))));
    assert!(a.is_empty());
    let (_, a) = feed(s, line("1\n"));
    assert_eq!(a, vec![w("--- Login ---\nUsername: ")]);
}

#[test]
fn failed_store_request_ends_the_session() {
    let s = logged_in("admin");
    let (s, _) = feed(s, line("3\n"));
    let (s, _) = feed(s, line("4\n"));
    let (s, a) = feed(s, line("user\n"));
    assert_eq!(a, vec![Action::UpdateRole { user_id: 4, role: "user".to_string() }]);
    let (s, a) = feed(s, Event::StoreFailed("connection lost".to_string()));
    assert_eq!(a, vec![Action::Abort("connection lost".to_string())]);
    assert!(s.is_closed());

    let s = logged_in("user");
    let (s, _) = feed(s, line("3\n"));
    let (s, a) = feed(s, Event::StoreFailed("timeout".to_string()));
    assert_eq!(a, vec![Action::Abort("timeout".to_string())]);
    assert!(s.is_closed());
}

#[test]
fn failed_calculation_store_writes_no_result() {
    let s = logged_in("user");
    let (s, _) = feed(s, line("1\n"));
    let (s, _) = feed(s, line("1+2\n"));
    let (s, _) = feed(s, Event::Evaluation { result: Some("3".to_string()), ram_bytes: 0 });
    let (s, a) = feed(s, Event::StoreFailed("disk full".to_string()));
    assert_eq!(a, vec![Action::Abort("disk full".to_string())]);
    assert!(s.is_closed());
}

#[test]
fn failed_login_against_the_store_is_reported() {
    let (s, _) = Session::start();
    let (s, _) = feed(s, line("1\n"));
    let (s, _) = feed(s, line("carol\n"));
    let (s, _) = feed(s, line("pw\n"));
    let (s, a) = feed(s, Event::LoginResult(Err(AuthError::Database("db down".to_string()))));
    assert_eq!(a, vec![w("Login failed: db down\nchoice>\n")]);
    assert!(!s.is_closed());
}
