//! The client's plain data types: a saved server connection, the state of
//! each modal window, deferred UI actions, and the validation rules the
//! server form enforces.
use crate::text::str_eq;
use vstd::prelude::*;

verus! {

/// Colour scheme chosen in the client's settings. `NotInited` marks a
/// configuration that has not picked a theme yet.
#[derive(Clone, Debug, PartialEq, Eq, Structural)]
pub enum Theme {
    Light,
    Dark,
    NotInited,
}

impl Theme {
    /// A theme is initialised exactly when it is not the `NotInited` placeholder.
    pub fn is_inited(&self) -> (r: bool)
        ensures
            r == !(*self is NotInited),
    {
        match self {
            Theme::NotInited => false,
            _ => true,
        }
    }
}

/// A saved server connection.
#[derive(Debug)]
pub struct Server {
    pub alias: String,
    pub ip: String,
    pub port: u16,
    pub user: String,
    pub password: String,
    pub service_database: String,
}

impl Clone for Server {
    /// Cloning keeps every field.
    fn clone(&self) -> (r: Self)
        ensures
            r == *self,
    {
        Server {
            alias: self.alias.clone(),
            ip: self.ip.clone(),
            port: self.port,
            user: self.user.clone(),
            password: self.password.clone(),
            service_database: self.service_database.clone(),
        }
    }
}

/// State of the "add server" form.
pub struct AddServerWindow {
    pub show: bool,
    pub name_field: String,
    pub ip_field: String,
    pub port_field: String,
    pub user_field: String,
    pub password_field: String,
    pub service_database_field: String,
}

impl Default for AddServerWindow {
    /// A hidden form with the customary defaults filled in: port 5432 and
    /// the `postgres` service database.
    fn default() -> (d: Self)
        ensures
            !d.show,
            d.name_field@ == Seq::<char>::empty(),
            d.ip_field@ == Seq::<char>::empty(),
            d.port_field@ == "5432"@,
            d.user_field@ == Seq::<char>::empty(),
            d.password_field@ == Seq::<char>::empty(),
            d.service_database_field@ == "postgres"@,
    {
        AddServerWindow {
            show: false,
            name_field: String::new(),
            ip_field: String::new(),
            port_field: String::from_str("5432"),
            user_field: String::new(),
            password_field: String::new(),
            service_database_field: String::from_str("postgres"),
        }
    }
}

/// State of the "delete server" confirmation window.
pub struct DeleteServerWindow {
    pub show: bool,
    pub server: Option<Server>,
}

impl Default for DeleteServerWindow {
    /// Hidden, with no server chosen.
    fn default() -> (d: Self)
        ensures
            !d.show,
            d.server is None,
    {
        DeleteServerWindow { show: false, server: None }
    }
}

/// State of the "edit server" form.
pub struct EditServerWindow {
    pub show: bool,
    pub name_field: String,
    pub ip_field: String,
    pub port_field: String,
    pub user_field: String,
    pub password_field: String,
    pub service_database_field: String,
    pub server: Option<Server>,
    pub original_server: Option<Server>,
}

impl Default for EditServerWindow {
    /// A hidden, empty form.
    fn default() -> (d: Self)
        ensures
            !d.show,
            d.name_field@ == Seq::<char>::empty(),
            d.ip_field@ == Seq::<char>::empty(),
            d.port_field@ == Seq::<char>::empty(),
            d.user_field@ == Seq::<char>::empty(),
            d.password_field@ == Seq::<char>::empty(),
            d.service_database_field@ == Seq::<char>::empty(),
            d.server is None,
            d.original_server is None,
    {
        EditServerWindow {
            show: false,
            name_field: String::new(),
            ip_field: String::new(),
            port_field: String::new(),
            user_field: String::new(),
            password_field: String::new(),
            service_database_field: String::new(),
            server: None,
            original_server: None,
        }
    }
}

/// State of the window that shows one cell's full text for copying.
pub struct SQLResponseCopyWindow {
    pub show: bool,
    pub response: Option<String>,
}

impl Default for SQLResponseCopyWindow {
    /// Hidden, with nothing to show.
    fn default() -> (d: Self)
        ensures
            !d.show,
            d.response is None,
    {
        SQLResponseCopyWindow { show: false, response: None }
    }
}

/// State of the login window that asks for the encryption password.
pub struct LoginWindow {
    pub show: bool,
    pub clear_storage: bool,
    pub password: String,
    pub error: Option<String>,
}

impl Default for LoginWindow {
    /// Shown at start-up, with an empty password and no error.
    fn default() -> (d: Self)
        ensures
            d.show,
            !d.clear_storage,
            d.password@ == Seq::<char>::empty(),
            d.error is None,
    {
        LoginWindow { show: true, clear_storage: false, password: String::new(), error: None }
    }
}

/// State of the "change password" form.
pub struct ChangePasswordWindow {
    pub show: bool,
    pub old_password: String,
    pub new_password: String,
    pub confirm_password: String,
    pub error: Option<String>,
}

impl Default for ChangePasswordWindow {
    /// A hidden, empty form.
    fn default() -> (d: Self)
        ensures
            !d.show,
            d.old_password@ == Seq::<char>::empty(),
            d.new_password@ == Seq::<char>::empty(),
            d.confirm_password@ == Seq::<char>::empty(),
            d.error is None,
    {
        ChangePasswordWindow {
            show: false,
            old_password: String::new(),
            new_password: String::new(),
            confirm_password: String::new(),
            error: None,
        }
    }
}

/// A UI action deferred to the end of the frame.
#[derive(Clone, Debug)]
pub enum Action {
    ClosePage(usize),
}

/// What the file-pick dialog was opened for.
#[derive(Clone, Debug)]
pub enum SelectFileDialogAction {
    SaveFile,
    OpenFile,
    ExportToCsv,
}

/// Why a server name is rejected by the add- and edit-server forms.
#[derive(Clone, Copy, Debug, PartialEq, Eq, Structural)]
pub enum ServerNameError {
    Required,
    TooLong,
    Duplicate,
}

/// The verdict of the server-name rules: a name is required, may hold at
/// most 32 characters, and must differ from every existing alias.
pub open spec fn name_error_spec(name: Seq<char>, existing: Seq<Seq<char>>) -> Option<
    ServerNameError,
> {
    if name.len() == 0 {
        Some(ServerNameError::Required)
    } else if name.len() > 32 {
        Some(ServerNameError::TooLong)
    } else if exists|i: int| 0 <= i < existing.len() && existing[i] == name {
        Some(ServerNameError::Duplicate)
    } else {
        None
    }
}

/// Checks a proposed server name against the existing aliases.
pub fn validate_server_name(name: &String, existing: &Vec<String>) -> (r: Option<ServerNameError>)
    ensures
        r == name_error_spec(name@, existing.deep_view()),
{
    if name.as_str().is_empty() {
        return Some(ServerNameError::Required);
    }
    if name.as_str().unicode_len() > 32 {
        return Some(ServerNameError::TooLong);
    }
    let mut i: usize = 0;
    while i < existing.len()
        invariant
            i <= existing@.len(),
            name@.len() > 0,
            name@.len() <= 32,
            forall|j: int| 0 <= j < i ==> existing@[j]@ != name@,
        decreases existing@.len() - i,
    {
        if str_eq(existing[i].as_str(), name.as_str()) {
            proof {
                assert(existing.deep_view()[i as int] == name@);
            }
            return Some(ServerNameError::Duplicate);
        }
        i += 1;
    }
    proof {
        assert forall|j: int| 0 <= j < existing.deep_view().len() implies existing.deep_view()[j]
            != name@ by {
            assert(existing.deep_view()[j] == existing@[j]@);
        }
    }
    None
}

/// `c` is a decimal digit.
pub open spec fn is_digit(c: char) -> bool {
    '0' <= c && c <= '9'
}

/// The numeric value of a digit character.
pub open spec fn digit_val(c: char) -> nat {
    ((c as int) - 48) as nat
}

/// The number a digit string denotes, most significant digit first.
pub open spec fn digits_val(s: Seq<char>) -> nat
    decreases s.len(),
{
    if s.len() == 0 {
        0
    } else {
        digits_val(s.drop_last()) * 10 + digit_val(s.last())
    }
}

/// The digits of a port field: the field without its optional leading `+`.
pub open spec fn port_body(s: Seq<char>) -> Seq<char> {
    if s.len() >= 1 && s[0] == '+' {
        s.drop_first()
    } else {
        s
    }
}

/// What parsing a port number accepts: an optional leading `+`, then one
/// or more decimal digits denoting a value of at most 65535.
pub open spec fn port_parse_spec(s: Seq<char>) -> Option<u16> {
    if port_body(s).len() == 0 {
        None
    } else if exists|i: int| 0 <= i < port_body(s).len() && !is_digit(#[trigger] port_body(s)[i]) {
        None
    } else if digits_val(port_body(s)) > 65535 {
        None
    } else {
        Some(digits_val(port_body(s)) as u16)
    }
}

proof fn lemma_digits_val_grows(s: Seq<char>, i: int)
    requires
        0 <= i < s.len(),
    ensures
        digits_val(s.subrange(0, i + 1)) >= digits_val(s.subrange(0, i)),
{
    let pre = s.subrange(0, i + 1);
    assert(pre.drop_last() =~= s.subrange(0, i));
}

/// Parses the port form field as `u16::from_str` does: `Some` exactly for
/// an optionally `+`-signed, all-digit string whose value fits a `u16`.
pub fn parse_port(s: &str) -> (r: Option<u16>)
    ensures
        r == port_parse_spec(s@),
{
    let len = s.unicode_len();
    let start: usize = if len > 0 && s.get_char(0) == '+' {
        1
    } else {
        0
    };
    let ghost body = port_body(s@);
    proof {
        assert(body =~= s@.subrange(start as int, len as int));
    }
    if start == len {
        return None;
    }
    let mut acc: u32 = 0;
    let mut too_big: bool = false;
    let mut i: usize = start;
    while i < len
        invariant
            start <= i <= len,
            len == s@.len(),
            body == s@.subrange(start as int, len as int),
            body == port_body(s@),
            forall|j: int| 0 <= j < i - start ==> is_digit(#[trigger] body[j]),
            !too_big ==> acc == digits_val(body.subrange(0, i - start)) && acc <= 65535,
            too_big ==> digits_val(body.subrange(0, i - start)) > 65535,
        decreases len - i,
    {
        let c = s.get_char(i);
        if !('0' <= c && c <= '9') {
            proof {
                assert(0 <= i - start < body.len());
                assert(body[i - start] == s@[i as int]);
                assert(!is_digit(body[i - start]));
                assert(0 <= i - start < port_body(s@).len() && !is_digit(
                    port_body(s@)[i - start],
                ));
                assert(port_parse_spec(s@) is None);
            }
            return None;
        }
        let d: u32 = (c as u32) - 48;
        proof {
            assert(body.subrange(0, i - start + 1).drop_last() =~= body.subrange(0, i - start));
            assert(body.subrange(0, i - start + 1).last() == body[i - start]);
            assert(body[i - start] == s@[i as int]);
        }
        if too_big {
            proof {
                lemma_digits_val_grows(body, i - start);
            }
        } else {
            let next = acc * 10 + d;
            if next > 65535 {
                too_big = true;
            }
            acc = next;
        }
        i += 1;
    }
    proof {
        assert(body.subrange(0, (len - start) as int) =~= body);
        assert(forall|j: int| 0 <= j < body.len() ==> is_digit(#[trigger] body[j]));
    }
    if too_big {
        None
    } else {
        Some(acc as u16)
    }
}

} // verus!
