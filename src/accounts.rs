//! What the account commands decide once the system tools have run: the
//! message for an exit status, the records handed back to the operator, and
//! the generated names and passwords.
use chrono::Datelike;
use rand::Rng;
use vstd::prelude::*;
use vstd::string::*;

verus! {

/// The status of one account after a lock, unlock or delete.
pub struct UserStatus {
    pub username: String,
    pub status: String,
}

/// The login limit of one account.
pub struct UserMax {
    pub username: String,
    pub max_logins: String,
}

/// The password of one account.
pub struct UserPass {
    pub username: String,
    pub password: String,
}

/// The expiry date of one account.
pub struct UserExp {
    pub username: String,
    pub exp_date: String,
}

/// A newly created account.
pub struct SSHUser {
    pub username: String,
    pub password: String,
    pub max_logins: String,
    pub expiry_date: String,
}

/// The message for an exit status of the account tools; `None` for success.
pub open spec fn exit_message(code: Option<i32>) -> Option<Seq<char>> {
    match code {
        Some(0) => None,
        Some(1) => Some("Permission denied"@),
        Some(3) => Some("Invalid shell"@),
        Some(6) => Some("Invalid user or group"@),
        Some(9) => Some("User alreade exists"@),
        Some(_) => Some("Unexpected error"@),
        None => Some("Process terminated"@),
    }
}

/// Maps the exit status of `useradd`, `usermod`, `userdel` or `chage` to an
/// error message; `None` (no status) means the process was killed.
pub fn unixuser_code_to_err(code: Option<i32>) -> (r: Option<String>)
    ensures
        r is Some <==> exit_message(code) is Some,
        r matches Some(s) ==> exit_message(code) == Some(s@),
{
    match code {
        Some(0) => None,
        Some(1) => Some(String::from_str("Permission denied")),
        Some(3) => Some(String::from_str("Invalid shell")),
        Some(6) => Some(String::from_str("Invalid user or group")),
        Some(9) => Some(String::from_str("User alreade exists")),
        Some(_) => Some(String::from_str("Unexpected error")),
        None => Some(String::from_str("Process terminated")),
    }
}

/// The decimal digit character of `d`.
pub open spec fn digit_char(d: nat) -> char {
    if d == 0 { '0' } else if d == 1 { '1' } else if d == 2 { '2' } else if d == 3 { '3' }
    else if d == 4 { '4' } else if d == 5 { '5' } else if d == 6 { '6' } else if d == 7 { '7' }
    else if d == 8 { '8' } else { '9' }
}

/// `n` in decimal, padded with leading zeros to at least `width` digits.
pub open spec fn zero_padded(n: nat, width: nat) -> Seq<char>
    decreases n, width,
{
    if n < 10 && width <= 1 {
        seq![digit_char(n)]
    } else {
        zero_padded(n / 10, if width > 0 { (width - 1) as nat } else { 0 }).push(digit_char(n % 10))
    }
}

/// Appends the digit `d` to `out`.
fn push_digit(out: &mut String, d: u64)
    requires
        d < 10,
    ensures
        final(out)@ == old(out)@.push(digit_char(d as nat)),
{
    proof {
        reveal_strlit("0");
        reveal_strlit("1");
        reveal_strlit("2");
        reveal_strlit("3");
        reveal_strlit("4");
        reveal_strlit("5");
        reveal_strlit("6");
        reveal_strlit("7");
        reveal_strlit("8");
        reveal_strlit("9");
    }
    let s = if d == 0 { "0" } else if d == 1 { "1" } else if d == 2 { "2" } else if d == 3 { "3" }
    else if d == 4 { "4" } else if d == 5 { "5" } else if d == 6 { "6" } else if d == 7 { "7" }
    else if d == 8 { "8" } else { "9" };
    out.append(s);
}

/// Appends `n` in decimal, zero-padded to at least `width` digits.
pub(crate) fn push_zero_padded(out: &mut String, n: u64, width: u64)
    ensures
        final(out)@ == old(out)@ + zero_padded(n as nat, width as nat),
    decreases n, width,
{
    if n < 10 && width <= 1 {
        push_digit(out, n);
        assert(zero_padded(n as nat, width as nat) == seq![digit_char(n as nat)]);
        assert(final(out)@ =~= old(out)@ + zero_padded(n as nat, width as nat));
    } else {
        let w = if width > 0 { width - 1 } else { 0 };
        push_zero_padded(out, n / 10, w);
        push_digit(out, n % 10);
        assert(final(out)@ =~= old(out)@ + zero_padded(n as nat, width as nat));
    }
}

/// The generated password for a random draw: `SSHMGMT` and five digits.
pub fn password_from_number(n: u32) -> (r: String)
    ensures
        r@ == "SSHMGMT"@ + zero_padded(n as nat, 5),
{
    let mut out = String::from_str("SSHMGMT");
    push_zero_padded(&mut out, n as u64, 5);
    out
}

/// Relies on rand's `thread_rng().gen_range(0..bound)`: a value below `bound`.
#[verifier::external_body]
fn random_below(bound: u32) -> (r: u32)
    requires
        bound > 0,
    ensures
        r < bound,
{
    rand::thread_rng().gen_range(0..bound)
}

/// A fresh random password `SSHMGMT` followed by five digits.
pub fn gen_password() -> (r: String)
    ensures
        exists|n: nat| n < 100000 && r@ == "SSHMGMT"@ + zero_padded(n, 5),
{
    let n = random_below(100000);
    password_from_number(n)
}

/// The name of the next automatically created account: the prefix and the
/// one-based account number, zero-padded to three digits.
pub fn auto_username(prefix: &str, users_count: usize) -> (r: String)
    requires
        users_count < usize::MAX,
    ensures
        r@ == prefix@ + zero_padded(users_count as nat + 1, 3),
{
    let mut out = String::from_str(prefix);
    push_zero_padded(&mut out, users_count as u64 + 1, 3);
    out
}

impl UserStatus {
    /// The operator-facing text of the record.
    pub fn to_string(&self) -> (r: String)
        ensures
            r@ == "username: `"@ + self.username@ + "`\nstatus: `"@ + self.status@ + "`"@,
    {
        let mut out = String::from_str("username: `");
        out.append(self.username.as_str());
        out.append("`\nstatus: `");
        out.append(self.status.as_str());
        out.append("`");
        out
    }
}

impl UserMax {
    /// The operator-facing text of the record.
    pub fn to_string(&self) -> (r: String)
        ensures
            r@ == "username: `"@ + self.username@ + "`\nmax logins: `"@ + self.max_logins@ + "`"@,
    {
        let mut out = String::from_str("username: `");
        out.append(self.username.as_str());
        out.append("`\nmax logins: `");
        out.append(self.max_logins.as_str());
        out.append("`");
        out
    }
}

impl UserPass {
    /// The operator-facing text of the record.
    pub fn to_string(&self) -> (r: String)
        ensures
            r@ == "username: `"@ + self.username@ + "`\npassword: `"@ + self.password@ + "`"@,
    {
        let mut out = String::from_str("username: `");
        out.append(self.username.as_str());
        out.append("`\npassword: `");
        out.append(self.password.as_str());
        out.append("`");
        out
    }
}

impl UserExp {
    /// The operator-facing text of the record.
    pub fn to_string(&self) -> (r: String)
        ensures
            r@ == "username: "@ + self.username@ + "\nexpiry date: "@ + self.exp_date@,
    {
        let mut out = String::from_str("username: ");
        out.append(self.username.as_str());
        out.append("\nexpiry date: ");
        out.append(self.exp_date.as_str());
        out
    }
}

impl SSHUser {
    /// The operator-facing text of the record.
    pub fn to_string(&self) -> (r: String)
        ensures
            r@ == "username: `"@ + self.username@ + "`\npassword: `"@ + self.password@
                + "`\nmax logins: `"@ + self.max_logins@ + "`\nexpiry date: `"@
                + self.expiry_date@ + "`"@,
    {
        let mut out = String::from_str("username: `");
        out.append(self.username.as_str());
        out.append("`\npassword: `");
        out.append(self.password.as_str());
        out.append("`\nmax logins: `");
        out.append(self.max_logins.as_str());
        out.append("`\nexpiry date: `");
        out.append(self.expiry_date.as_str());
        out.append("`");
        out
    }
}

/// `s` with every occurrence of `max` removed, scanning left to right.
pub open spec fn without_max(s: Seq<char>) -> Seq<char>
    decreases s.len(),
{
    if s.len() < 3 {
        s
    } else if s.subrange(0, 3) == "max"@ {
        without_max(s.subrange(3, s.len() as int))
    } else {
        seq![s[0]] + without_max(s.subrange(1, s.len() as int))
    }
}

/// The login limit that a group name stands for (`max2` gives `2`): the
/// name with every `max` removed, scanning left to right.
pub fn max_logins_of(group: &str) -> (r: String)
    ensures
        r@ == without_max(group@),
{
    proof {
        reveal_strlit("max");
        assert("max"@ =~= seq!['m', 'a', 'x']);
    }
    let n = group.unicode_len();
    let mut out = String::new();
    let mut i: usize = 0;
    assert(group@.subrange(0, n as int) =~= group@);
    assert(out@ + without_max(group@) =~= without_max(group@));
    while i < n
        invariant
            n == group@.len(),
            i <= n,
            out@ + without_max(group@.subrange(i as int, n as int)) == without_max(group@),
            "max"@ == seq!['m', 'a', 'x'],
        decreases n - i,
    {
        let ghost rest = group@.subrange(i as int, n as int);
        if n - i >= 3 && group.get_char(i) == 'm' && group.get_char(i + 1) == 'a' && group.get_char(
            i + 2,
        ) == 'x' {
            assert(rest.subrange(0, 3) =~= seq!['m', 'a', 'x']);
            assert(rest.subrange(3, rest.len() as int) =~= group@.subrange(i + 3, n as int));
            assert(without_max(rest) == without_max(rest.subrange(3, rest.len() as int)));
            i = i + 3;
        } else {
            let ghost before = out@;
            let one = group.substring_char(i, i + 1);
            out.append(one);
            proof {
                let tail = group@.subrange(i + 1, n as int);
                assert(rest.subrange(1, rest.len() as int) =~= tail);
                if rest.len() >= 3 {
                    assert(rest.subrange(0, 3) != "max"@) by {
                        if rest.subrange(0, 3) == "max"@ {
                            assert(rest.subrange(0, 3)[0] == 'm');
                            assert(rest.subrange(0, 3)[1] == 'a');
                            assert(rest.subrange(0, 3)[2] == 'x');
                        }
                    }
                    assert(without_max(rest) == seq![rest[0]] + without_max(tail));
                } else {
                    assert(without_max(rest) == rest);
                    assert(without_max(tail) == tail);
                    assert(rest =~= seq![rest[0]] + tail);
                }
                assert(one@ =~= seq![rest[0]]);
                assert(out@ + without_max(tail) =~= before + without_max(rest));
            }
            i = i + 1;
        }
    }
    assert(group@.subrange(n as int, n as int) =~= Seq::<char>::empty());
    assert(without_max(Seq::<char>::empty()) == Seq::<char>::empty());
    assert(out@ =~= without_max(group@));
    out
}

/// The record of a lock, unlock or delete, or the tool's error message.
pub fn status_outcome(username: &str, status: &str, code: Option<i32>) -> (r: Result<
    UserStatus,
    String,
>)
    ensures
        exit_message(code) matches Some(m) ==> (r matches Err(e) && e@ == m),
        exit_message(code) is None ==> (r matches Ok(u) && u.username@ == username@ && u.status@
            == status@),
{
    match unixuser_code_to_err(code) {
        Some(error) => Err(error),
        None => Ok(UserStatus { username: String::from_str(username), status: String::from_str(status) }),
    }
}

/// The record of a changed login limit, or the tool's error message.
pub fn max_outcome(username: &str, group: &str, code: Option<i32>) -> (r: Result<UserMax, String>)
    ensures
        exit_message(code) matches Some(m) ==> (r matches Err(e) && e@ == m),
        exit_message(code) is None ==> (r matches Ok(u) && u.username@ == username@
            && u.max_logins@ == without_max(group@)),
{
    match unixuser_code_to_err(code) {
        Some(error) => Err(error),
        None => Ok(UserMax { username: String::from_str(username), max_logins: max_logins_of(group) }),
    }
}

/// The record of a changed password, or the tool's error message.
pub fn pass_outcome(username: &str, password: &str, code: Option<i32>) -> (r: Result<
    UserPass,
    String,
>)
    ensures
        exit_message(code) matches Some(m) ==> (r matches Err(e) && e@ == m),
        exit_message(code) is None ==> (r matches Ok(u) && u.username@ == username@
            && u.password@ == password@),
{
    match unixuser_code_to_err(code) {
        Some(error) => Err(error),
        None => Ok(UserPass { username: String::from_str(username), password: String::from_str(password) }),
    }
}

/// The record of a changed expiry date, or the tool's error message.
pub fn exp_outcome(username: &str, exp_date: &str, code: Option<i32>) -> (r: Result<UserExp, String>)
    ensures
        exit_message(code) matches Some(m) ==> (r matches Err(e) && e@ == m),
        exit_message(code) is None ==> (r matches Ok(u) && u.username@ == username@
            && u.exp_date@ == exp_date@),
{
    match unixuser_code_to_err(code) {
        Some(error) => Err(error),
        None => Ok(UserExp { username: String::from_str(username), exp_date: String::from_str(exp_date) }),
    }
}

/// The record of a created account, or the tool's error message.
pub fn newuser_outcome(
    username: &str,
    group: &str,
    password: &str,
    exp_date: &str,
    code: Option<i32>,
) -> (r: Result<SSHUser, String>)
    ensures
        exit_message(code) matches Some(m) ==> (r matches Err(e) && e@ == m),
        exit_message(code) is None ==> (r matches Ok(u) && u.username@ == username@
            && u.password@ == password@ && u.max_logins@ == without_max(group@)
            && u.expiry_date@ == exp_date@),
{
    match unixuser_code_to_err(code) {
        Some(error) => Err(error),
        None => Ok(
            SSHUser {
                username: String::from_str(username),
                password: String::from_str(password),
                max_logins: max_logins_of(group),
                expiry_date: String::from_str(exp_date),
            },
        ),
    }
}

/// Whether `s` begins with `prefix`.
pub open spec fn has_prefix(s: Seq<char>, prefix: Seq<char>) -> bool {
    prefix.len() <= s.len() && s.subrange(0, prefix.len() as int) == prefix
}

/// Compares `prefix` with the start of `s`, character by character.
fn starts_with_text(s: &str, prefix: &str) -> (r: bool)
    ensures
        r == has_prefix(s@, prefix@),
{
    let n = prefix.unicode_len();
    if n > s.unicode_len() {
        return false;
    }
    let mut i: usize = 0;
    while i < n
        invariant
            n == prefix@.len(),
            n <= s@.len(),
            i <= n,
            forall|j: int| 0 <= j < i ==> s@[j] == prefix@[j],
        decreases n - i,
    {
        if s.get_char(i) != prefix.get_char(i) {
            assert(s@.subrange(0, n as int)[i as int] != prefix@[i as int]);
            return false;
        }
        i = i + 1;
    }
    assert(s@.subrange(0, n as int) =~= prefix@);
    true
}

/// Whether two texts are equal, character by character.
fn same_text(a: &str, b: &str) -> (r: bool)
    ensures
        r == (a@ == b@),
{
    let r = a.unicode_len() == b.unicode_len() && starts_with_text(a, b);
    proof {
        assert(a@.subrange(0, a@.len() as int) =~= a@);
    }
    r
}

/// One account of the system's user database: its name and the names of its
/// groups, where they could be read.
pub struct UserEntry {
    pub name: String,
    pub groups: Option<Vec<String>>,
}

/// Whether `entry` belongs to the named group; every entry does when no
/// group is asked for.
pub open spec fn in_group(entry: UserEntry, group: Option<Seq<char>>) -> bool {
    match group {
        None => true,
        Some(g) => match entry.groups {
            Some(gs) => exists|k: int| 0 <= k < gs@.len() && (#[trigger] gs@[k])@ == g,
            None => false,
        },
    }
}

/// The names of the entries whose name starts with `prefix` and that belong
/// to `group`, in their order.
pub open spec fn selected_names(entries: Seq<UserEntry>, prefix: Seq<char>, group: Option<
    Seq<char>,
>) -> Seq<Seq<char>>
    decreases entries.len(),
{
    if entries.len() == 0 {
        Seq::empty()
    } else {
        let rest = selected_names(entries.drop_last(), prefix, group);
        let e = entries.last();
        if has_prefix(e.name@, prefix) && in_group(e, group) {
            rest.push(e.name@)
        } else {
            rest
        }
    }
}

/// Whether the group list holds a group named `group`.
fn holds_group(groups: &Vec<String>, group: &str) -> (r: bool)
    ensures
        r == exists|k: int| 0 <= k < groups@.len() && (#[trigger] groups@[k])@ == group@,
{
    let mut k: usize = 0;
    while k < groups.len()
        invariant
            k <= groups@.len(),
            forall|j: int| 0 <= j < k ==> (#[trigger] groups@[j])@ != group@,
        decreases groups.len() - k,
    {
        if same_text(groups[k].as_str(), group) {
            return true;
        }
        k = k + 1;
    }
    false
}

/// The accounts whose name starts with `prefix`, and, when a group is given,
/// that belong to it; an entry whose groups could not be read is left out
/// when a group is asked for.
pub fn select_users(entries: &Vec<UserEntry>, prefix: &str, usergroup: Option<&str>) -> (r: Vec<
    String,
>)
    ensures
        r@.map_values(|s: String| s@) == selected_names(
            entries@,
            prefix@,
            match usergroup {
                Some(g) => Some(g@),
                None => None,
            },
        ),
{
    let ghost group = match usergroup {
        Some(g) => Some(g@),
        None => None,
    };
    let mut out: Vec<String> = Vec::new();
    let mut i: usize = 0;
    while i < entries.len()
        invariant
            i <= entries@.len(),
            group == match usergroup {
                Some(g) => Some(g@),
                None => None::<Seq<char>>,
            },
            out@.map_values(|s: String| s@) == selected_names(entries@.subrange(0, i as int), prefix@, group),
        decreases entries.len() - i,
    {
        let e = &entries[i];
        let keep = if starts_with_text(e.name.as_str(), prefix) {
            match usergroup {
                None => true,
                Some(g) => match &e.groups {
                    Some(gs) => holds_group(gs, g),
                    None => false,
                },
            }
        } else {
            false
        };
        let ghost before = out@;
        if keep {
            out.push(String::from_str(e.name.as_str()));
        }
        i = i + 1;
        proof {
            let sub = entries@.subrange(0, i as int);
            assert(sub.drop_last() =~= entries@.subrange(0, i - 1));
            assert(sub.last() == entries@[i - 1]);
            if keep {
                assert(out@.map_values(|s: String| s@) =~= before.map_values(|s: String| s@).push(
                    e.name@,
                ));
            } else {
                assert(out@ == before);
            }
        }
    }
    assert(entries@.subrange(0, entries@.len() as int) =~= entries@);
    out
}

/// A character of the crypt(3) salt alphabet: `.`, `/`, digits and letters.
pub open spec fn salt_char(c: char) -> bool {
    c == '.' || c == '/' || ('0' <= c <= '9') || ('A' <= c <= 'Z') || ('a' <= c <= 'z')
}

/// A `$6$salt` setting with a salt of 1 to 16 characters of the salt alphabet.
pub open spec fn valid_sha512_setting(setting: Seq<char>) -> bool {
    &&& setting.len() >= 4
    &&& setting.len() <= 19
    &&& setting.subrange(0, 3) == "$6$"@
    &&& forall|i: int| 3 <= i < setting.len() ==> salt_char(#[trigger] setting[i])
}

/// The crypt(3) SHA-512 hash of `password` under the `$6$salt` `setting`.
pub uninterp spec fn sha512_crypt_of(setting: Seq<char>, password: Seq<char>) -> Seq<char>;

/// Relies on `pwhash::sha512_crypt::hash_with`, which hashes with the salt
/// parsed from `setting`; it refuses only a malformed setting or a salt
/// character outside the salt alphabet.
#[verifier::external_body]
fn sha512_crypt(setting: &str, password: &str) -> (r: Option<String>)
    ensures
        valid_sha512_setting(setting@) ==> r is Some,
        r matches Some(h) ==> h@ == sha512_crypt_of(setting@, password@),
{
    pwhash::sha512_crypt::hash_with(setting, password).ok()
}

/// The hash stored by `useradd -p` and `usermod -p` for `password`, under
/// the fixed salt of this deployment.
pub fn hash_password(password: &str) -> (r: Option<String>)
    ensures
        r matches Some(h) && h@ == sha512_crypt_of("$6$mENJascSdtQuhrXH"@, password@),
{
    proof {
        reveal_strlit("$6$mENJascSdtQuhrXH");
        reveal_strlit("$6$");
        assert("$6$mENJascSdtQuhrXH"@.subrange(0, 3) =~= "$6$"@);
    }
    sha512_crypt("$6$mENJascSdtQuhrXH", password)
}

/// A day of the proleptic Gregorian calendar.
#[derive(Debug, Clone, Copy, PartialEq, Eq, Structural)]
pub struct CalendarDate {
    pub year: i32,
    pub month: u32,
    pub day: u32,
}

/// Within the years that chrono represents, with a month and day in range.
pub open spec fn date_in_range(d: CalendarDate) -> bool {
    &&& -262144 <= d.year <= 262143
    &&& 1 <= d.month <= 12
    &&& 1 <= d.day <= 31
}

/// A year as chrono's `%Y` writes it: at least four digits, with a sign
/// outside 0 to 9999.
pub open spec fn year_text(y: int) -> Seq<char> {
    if y < 0 {
        seq!['-'] + zero_padded((-y) as nat, 4)
    } else if y > 9999 {
        seq!['+'] + zero_padded(y as nat, 4)
    } else {
        zero_padded(y as nat, 4)
    }
}

/// A date written `YYYY-MM-DD`.
pub open spec fn ymd_text(d: CalendarDate) -> Seq<char> {
    year_text(d.year as int) + seq!['-'] + zero_padded(d.month as nat, 2) + seq!['-']
        + zero_padded(d.day as nat, 2)
}

/// Writes a date as `YYYY-MM-DD`.
pub fn date_text(d: &CalendarDate) -> (r: String)
    requires
        date_in_range(*d),
    ensures
        r@ == ymd_text(*d),
{
    proof {
        reveal_strlit("-");
        reveal_strlit("+");
    }
    let mut out = String::new();
    if d.year < 0 {
        out.append("-");
        push_zero_padded(&mut out, (0 - d.year) as u64, 4);
    } else if d.year > 9999 {
        out.append("+");
        push_zero_padded(&mut out, d.year as u64, 4);
    } else {
        push_zero_padded(&mut out, d.year as u64, 4);
    }
    out.append("-");
    push_zero_padded(&mut out, d.month as u64, 2);
    out.append("-");
    push_zero_padded(&mut out, d.day as u64, 2);
    assert(out@ =~= ymd_text(*d));
    out
}

/// The date chrono reads from `text` in the layout `fmt`, if any.
pub uninterp spec fn parsed_date_of(text: Seq<char>, fmt: Seq<char>) -> Option<CalendarDate>;

/// Relies on `chrono::NaiveDate::parse_from_str`, read back through
/// `Datelike`'s `year`, `month` and `day`; `None` where the text is not a
/// valid date in the layout.
#[verifier::external_body]
fn parse_date(text: &str, fmt: &str) -> (r: Option<CalendarDate>)
    ensures
        r == parsed_date_of(text@, fmt@),
        r matches Some(d) ==> date_in_range(d),
{
    chrono::NaiveDate::parse_from_str(text, fmt)
        .ok()
        .map(|d| CalendarDate { year: d.year(), month: d.month(), day: d.day() })
}

/// The date `days` days after `d`, as chrono computes it; `None` where `d`
/// is not a calendar date or the result is out of range.
pub uninterp spec fn date_plus_days_of(d: CalendarDate, days: i64) -> Option<CalendarDate>;

/// Relies on `chrono::NaiveDate::from_ymd_opt`, `TimeDelta::try_days` and
/// `NaiveDate::checked_add_signed`, read back through `Datelike`.
#[verifier::external_body]
fn add_days(d: &CalendarDate, days: i64) -> (r: Option<CalendarDate>)
    ensures
        r == date_plus_days_of(*d, days),
        r matches Some(later) ==> date_in_range(later),
{
    let date = chrono::NaiveDate::from_ymd_opt(d.year, d.month, d.day)?;
    let later = date.checked_add_signed(chrono::TimeDelta::try_days(days)?)?;
    Some(CalendarDate { year: later.year(), month: later.month(), day: later.day() })
}

/// The date `days` days after `today`, as `YYYY-MM-DD`; `None` exactly where
/// `today` is no calendar date or the result is out of the calendar's range.
pub fn expiry_after(today: &CalendarDate, days: i64) -> (r: Option<String>)
    ensures
        r is None <==> date_plus_days_of(*today, days) is None,
        r matches Some(s) ==> date_plus_days_of(*today, days) matches Some(later) && s@ == ymd_text(
            later,
        ),
{
    match add_days(today, days) {
        Some(later) => Some(date_text(&later)),
        None => None,
    }
}

/// Checks an operator-supplied expiry date and writes it as `YYYY-MM-DD`.
pub fn format_exp_date(exp_date: &str) -> (r: Result<String, String>)
    ensures
        parsed_date_of(exp_date@, "%Y-%m-%d"@) matches Some(d) ==> (r matches Ok(t) && t@
            == ymd_text(d)),
        parsed_date_of(exp_date@, "%Y-%m-%d"@) is None ==> (r matches Err(e) && e@
            == "Invalid expiry date"@),
{
    match parse_date(exp_date, "%Y-%m-%d") {
        Some(date) => Ok(date_text(&date)),
        None => Err(String::from_str("Invalid expiry date")),
    }
}

/// What the first capture group of `pattern` holds at its leftmost match in
/// `text`; `None` where the pattern is refused or does not match.
pub uninterp spec fn first_capture_of(pattern: Seq<char>, text: Seq<char>) -> Option<Seq<char>>;

/// Relies on `regex::Regex::new` and `Regex::captures`, reading group 1 of the
/// leftmost match; `None` where the pattern is refused or does not match.
#[verifier::external_body]
fn first_capture(pattern: &str, text: &str) -> (r: Option<String>)
    ensures
        r is Some <==> first_capture_of(pattern@, text@) is Some,
        r matches Some(c) ==> first_capture_of(pattern@, text@) == Some(c@),
{
    let caps = regex::Regex::new(pattern).ok()?.captures(text)?;
    Some(caps.get(1).map_or("", |m| m.as_str()).to_string())
}

/// The text of the date that time reads from `text` in the layout `from`,
/// written in the layout `to`; `None` where a layout is refused or the text
/// is not a date in `from`.
pub uninterp spec fn reformatted_date_of(text: Seq<char>, from: Seq<char>, to: Seq<char>) -> Option<
    Seq<char>,
>;

/// Relies on `time::format_description::parse_owned` (version 1 syntax) for
/// both layouts, `time::Date::parse` and `time::Date::format`.
#[verifier::external_body]
fn reformat_date(text: &str, from: &str, to: &str) -> (r: Option<String>)
    ensures
        r is Some <==> reformatted_date_of(text@, from@, to@) is Some,
        r matches Some(s) ==> reformatted_date_of(text@, from@, to@) == Some(s@),
{
    let input = time::format_description::parse_owned::<1>(from).ok()?;
    let output = time::format_description::parse_owned::<1>(to).ok()?;
    time::Date::parse(text, &input).ok()?.format(&output).ok()
}

/// The line of `chage -l` output that holds the expiry date.
pub open spec fn expiry_pattern() -> Seq<char> {
    "Account expires\t+: (.*)\n"@
}

/// How `chage -l` writes a date.
pub open spec fn chage_layout() -> Seq<char> {
    "[month repr:short] [day], [year]"@
}

/// How expiry dates are reported.
pub open spec fn report_layout() -> Seq<char> {
    "[year]-[month]-[day]"@
}

/// Reads a user's expiry date out of what `chage -l` printed and its exit
/// status: the tool's error message, `Unexpected error` where no expiry line
/// is found, `never` as it stands, other dates as `YYYY-MM-DD`, and
/// `Invalid Expiry date` where a date cannot be read.
pub fn chage_expiry(username: &str, output: &str, code: Option<i32>) -> (r: Result<UserExp, String>)
    ensures
        exit_message(code) matches Some(m) ==> (r matches Err(e) && e@ == m),
        exit_message(code) is None ==> match first_capture_of(expiry_pattern(), output@) {
            None => r matches Err(e) && e@ == "Unexpected error"@,
            Some(c) => if c == "never"@ {
                r matches Ok(u) && u.username@ == username@ && u.exp_date@ == "never"@
            } else {
                match reformatted_date_of(c, chage_layout(), report_layout()) {
                    Some(d) => r matches Ok(u) && u.username@ == username@ && u.exp_date@ == d,
                    None => r matches Err(e) && e@ == "Invalid Expiry date"@,
                }
            },
        },
{
    if let Some(error) = unixuser_code_to_err(code) {
        return Err(error);
    }
    match first_capture("Account expires\t+: (.*)\n", output) {
        None => Err(String::from_str("Unexpected error")),
        Some(exp_date) => {
            if same_text(exp_date.as_str(), "never") {
                Ok(UserExp { username: String::from_str(username), exp_date: exp_date })
            } else {
                match reformat_date(
                    exp_date.as_str(),
                    "[month repr:short] [day], [year]",
                    "[year]-[month]-[day]",
                ) {
                    Some(date) => Ok(UserExp { username: String::from_str(username), exp_date: date }),
                    None => Err(String::from_str("Invalid Expiry date")),
                }
            }
        },
    }
}

} // verus!
