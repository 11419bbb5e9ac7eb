use sshbot::accounts::{
    auto_username, chage_expiry, date_text, exp_outcome, expiry_after, CalendarDate, format_exp_date, gen_password, hash_password, max_logins_of,
    max_outcome, newuser_outcome, pass_outcome, password_from_number, select_users,
    status_outcome, unixuser_code_to_err, SSHUser, UserEntry, UserExp, UserMax, UserPass,
    UserStatus,
};

#[test]
fn exit_codes_map_to_messages() {
    assert_eq!(unixuser_code_to_err(Some(0)), None);
    assert_eq!(unixuser_code_to_err(Some(1)).as_deref(), Some("Permission denied"));
    assert_eq!(unixuser_code_to_err(Some(3)).as_deref(), Some("Invalid shell"));
    assert_eq!(unixuser_code_to_err(Some(6)).as_deref(), Some("Invalid user or group"));
    assert_eq!(unixuser_code_to_err(Some(9)).as_deref(), Some("User alreade exists"));
    assert_eq!(unixuser_code_to_err(Some(2)).as_deref(), Some("Unexpected error"));
    assert_eq!(unixuser_code_to_err(Some(-1)).as_deref(), Some("Unexpected error"));
    assert_eq!(unixuser_code_to_err(None).as_deref(), Some("Process terminated"));
}

#[test]
fn password_has_five_padded_digits() {
    assert_eq!(password_from_number(42), "SSHMGMT00042");
    assert_eq!(password_from_number(0), "SSHMGMT00000");
    assert_eq!(password_from_number(99999), "SSHMGMT99999");
    let p = gen_password();
    assert_eq!(p.len(), 12);
    assert!(p.starts_with("SSHMGMT"));
    assert!(p[7..].chars().all(|c| c.is_ascii_digit()));
}

#[test]
fn auto_username_numbers_from_one() {
    assert_eq!(auto_username("user", 0), "user001");
    assert_eq!(auto_username("user", 41), "user042");
    assert_eq!(auto_username("u", 999), "u1000");
}

#[test]
fn group_names_give_login_limits() {
    assert_eq!(max_logins_of("max2"), "2");
    assert_eq!(max_logins_of("max10"), "10");
    assert_eq!(max_logins_of("users"), "users");
    assert_eq!(max_logins_of("mmaxax"), "max");
    assert_eq!(max_logins_of(""), "");
    assert_eq!(max_logins_of("ma"), "ma");
    assert_eq!(max_logins_of("maxmax5max"), "5");
    for g in ["max2", "mmaxax", "amaxbmaxx", "mamaxx", "xmax"] {
        assert_eq!(max_logins_of(g), g.replace("max", ""));
    }
}

#[test]
fn outcomes_follow_exit_status() {
    let u = status_outcome("bob", "Locked", Some(0)).ok().unwrap();
    assert_eq!((u.username.as_str(), u.status.as_str()), ("bob", "Locked"));
    assert_eq!(status_outcome("bob", "Locked", Some(6)).err().unwrap(), "Invalid user or group");
    let m = max_outcome("bob", "max3", Some(0)).ok().unwrap();
    assert_eq!(m.max_logins, "3");
    assert_eq!(max_outcome("bob", "max3", None).err().unwrap(), "Process terminated");
    let p = pass_outcome("bob", "secret", Some(0)).ok().unwrap();
    assert_eq!(p.password, "secret");
    assert_eq!(pass_outcome("bob", "secret", Some(1)).err().unwrap(), "Permission denied");
    let e = exp_outcome("bob", "2024-01-01", Some(0)).ok().unwrap();
    assert_eq!(e.exp_date, "2024-01-01");
    let n = newuser_outcome("bob", "max2", "pw", "2024-01-01", Some(0)).ok().unwrap();
    assert_eq!(
        (n.username.as_str(), n.password.as_str(), n.max_logins.as_str(), n.expiry_date.as_str()),
        ("bob", "pw", "2", "2024-01-01")
    );
    assert_eq!(
        newuser_outcome("bob", "max2", "pw", "2024-01-01", Some(9)).err().unwrap(),
        "User alreade exists"
    );
}

#[test]
fn records_render_for_the_operator() {
    let s = UserStatus { username: "bob".to_string(), status: "Locked".to_string() };
    assert_eq!(s.to_string(), "username: `bob`\nstatus: `Locked`");
    let m = UserMax { username: "bob".to_string(), max_logins: "2".to_string() };
    assert_eq!(m.to_string(), "username: `bob`\nmax logins: `2`");
    let p = UserPass { username: "bob".to_string(), password: "pw".to_string() };
    assert_eq!(p.to_string(), "username: `bob`\npassword: `pw`");
    let e = UserExp { username: "bob".to_string(), exp_date: "2024-01-01".to_string() };
    assert_eq!(e.to_string(), "username: bob\nexpiry date: 2024-01-01");
    let u = SSHUser {
        username: "bob".to_string(),
        password: "pw".to_string(),
        max_logins: "2".to_string(),
        expiry_date: "2024-01-01".to_string(),
    };
    assert_eq!(
        u.to_string(),
        "username: `bob`\npassword: `pw`\nmax logins: `2`\nexpiry date: `2024-01-01`"
    );
}

fn entry(name: &str, groups: Option<&[&str]>) -> UserEntry {
    UserEntry {
        name: name.to_string(),
        groups: groups.map(|gs| gs.iter().map(|g| g.to_string()).collect()),
    }
}

#[test]
fn users_are_selected_by_prefix_and_group() {
    let entries = vec![
        entry("user001", Some(&["max2"])),
        entry("root", Some(&["root"])),
        entry("user002", Some(&["max1", "users"])),
        entry("user003", None),
        entry("use", Some(&["max2"])),
    ];
    assert_eq!(select_users(&entries, "user", None), vec!["user001", "user002", "user003"]);
    assert_eq!(select_users(&entries, "user", Some("max2")), vec!["user001"]);
    assert_eq!(select_users(&entries, "user", Some("users")), vec!["user002"]);
    assert_eq!(select_users(&entries, "", Some("root")), vec!["root"]);
    assert!(select_users(&entries, "nobody", None).is_empty());
    assert!(select_users(&Vec::new(), "user", None).is_empty());
}

#[test]
fn password_hash_uses_fixed_salt() {
    let h = hash_password("secret").unwrap();
    assert!(h.starts_with("$6$mENJascSdtQuhrXH$"));
    assert_ne!(h, "secret");
    assert_eq!(hash_password("secret").unwrap(), h);
    assert!(pwhash::sha512_crypt::verify("secret", &h));
    assert_ne!(hash_password("other").unwrap(), h);
}

#[test]
fn expiry_dates_are_checked_and_normalized() {
    assert_eq!(format_exp_date("2024-01-01"), Ok("2024-01-01".to_string()));
    assert_eq!(format_exp_date("2024-1-5"), Ok("2024-01-05".to_string()));
    assert_eq!(format_exp_date("2024-02-30"), Err("Invalid expiry date".to_string()));
    assert_eq!(format_exp_date("tomorrow"), Err("Invalid expiry date".to_string()));
}

fn chage_listing(expires: &str) -> String {
    format!(
        "Last password change\t\t\t\t\t: Jan 01, 2024\nPassword expires\t\t\t\t\t: never\n\
         Password inactive\t\t\t\t\t: never\nAccount expires\t\t\t\t\t\t: {}\n\
         Minimum number of days between password change\t\t: 0\n",
        expires
    )
}

#[test]
fn chage_expiry_reads_the_account_line() {
    let u = chage_expiry("bob", &chage_listing("Feb 03, 2024"), Some(0)).ok().unwrap();
    assert_eq!(u.username, "bob");
    assert_eq!(u.exp_date, "2024-02-03");
    let u = chage_expiry("bob", &chage_listing("Dec 31, 2030"), Some(0)).ok().unwrap();
    assert_eq!(u.exp_date, "2030-12-31");
}

#[test]
fn chage_expiry_keeps_never() {
    let u = chage_expiry("bob", &chage_listing("never"), Some(0)).ok().unwrap();
    assert_eq!(u.exp_date, "never");
}

#[test]
fn chage_expiry_errors() {
    assert_eq!(
        chage_expiry("bob", &chage_listing("someday"), Some(0)).err().unwrap(),
        "Invalid Expiry date"
    );
    assert_eq!(
        chage_expiry("bob", "nothing useful\n", Some(0)).err().unwrap(),
        "Unexpected error"
    );
    assert_eq!(
        chage_expiry("bob", &chage_listing("never"), Some(1)).err().unwrap(),
        "Permission denied"
    );
    assert_eq!(
        chage_expiry("bob", "", None).err().unwrap(),
        "Process terminated"
    );
}

#[test]
fn expiry_is_counted_from_today() {
    let today = CalendarDate { year: 2024, month: 2, day: 27 };
    assert_eq!(expiry_after(&today, 3).as_deref(), Some("2024-03-01"));
    assert_eq!(expiry_after(&today, 0).as_deref(), Some("2024-02-27"));
    assert_eq!(expiry_after(&today, -27).as_deref(), Some("2024-01-31"));
    assert_eq!(expiry_after(&today, 366).as_deref(), Some("2025-02-27"));
    assert_eq!(expiry_after(&today, i64::MAX), None);
    assert_eq!(expiry_after(&CalendarDate { year: 2023, month: 2, day: 29 }, 1), None);
}

#[test]
fn dates_are_written_like_chrono() {
    assert_eq!(date_text(&CalendarDate { year: 2024, month: 1, day: 5 }), "2024-01-05");
    assert_eq!(date_text(&CalendarDate { year: 33, month: 12, day: 31 }), "0033-12-31");
    assert_eq!(date_text(&CalendarDate { year: 12345, month: 6, day: 7 }), "+12345-06-07");
    assert_eq!(date_text(&CalendarDate { year: -44, month: 3, day: 15 }), "-0044-03-15");
    for (y, m, d) in [(2024, 1, 5), (33, 12, 31), (12345, 6, 7), (-44, 3, 15)] {
        let chrono_text = chrono::NaiveDate::from_ymd_opt(y, m, d).unwrap().format("%Y-%m-%d").to_string();
        assert_eq!(date_text(&CalendarDate { year: y, month: m, day: d }), chrono_text);
    }
}
