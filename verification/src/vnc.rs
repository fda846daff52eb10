//! Values of the remote-framebuffer protocol that the client decides on.

use vstd::prelude::*;
use vstd::string::*;

verus! {

/// A region of the remote frame buffer: its top left corner and its size.
#[derive(Clone, Copy, Debug, PartialEq, Eq, Structural)]
pub struct Rect {
    pub left: u16,
    pub top: u16,
    pub width: u16,
    pub height: u16,
}

/// How the server is to encode a pixel.
#[derive(Clone, Copy, Debug, PartialEq, Eq, Structural)]
pub struct PixelFormat {
    pub bits_per_pixel: u8,
    pub depth: u8,
    pub big_endian: bool,
    pub true_colour: bool,
    pub red_max: u16,
    pub green_max: u16,
    pub blue_max: u16,
    pub red_shift: u8,
    pub green_shift: u8,
    pub blue_shift: u8,
}

/// Where and as whom to connect.
#[derive(Debug, Copy, Clone)]
pub struct Connection<'a> {
    pub host: &'a str,
    pub port: u16,
    pub username: Option<&'a str>,
    pub password: Option<&'a str>,
    pub exclusive: bool,
}

/// A way to authenticate that a server offers.
#[derive(Clone, Copy, Debug, PartialEq, Eq, Structural)]
pub enum AuthMethod {
    /// No authentication is needed.
    NoAuth,
    Password,
    AppleRemoteDesktop,
    /// A method that this client does not know.
    Unknown,
}

/// The way to authenticate that the client takes, with its credentials.
#[derive(Debug)]
pub enum AuthChoice {
    NoAuth,
    Password([u8; 8]),
    AppleRemoteDesktop(String, String),
}

/// An `AuthChoice` by what it holds.
pub enum AuthChoiceView {
    NoAuth,
    Password(Seq<u8>),
    AppleRemoteDesktop(Seq<char>, Seq<char>),
}

impl View for AuthChoice {
    type V = AuthChoiceView;

    open spec fn view(&self) -> AuthChoiceView {
        match self {
            AuthChoice::NoAuth => AuthChoiceView::NoAuth,
            AuthChoice::Password(key) => AuthChoiceView::Password(key@),
            AuthChoice::AppleRemoteDesktop(username, password) => {
                AuthChoiceView::AppleRemoteDesktop(username@, password@)
            },
        }
    }
}

/// The key for password authentication: the first eight bytes of the
/// password, filled up with zeros.
pub open spec fn password_key(bytes: Seq<u8>) -> Seq<u8> {
    Seq::new(
        8,
        |i: int|
            if i < bytes.len() {
                bytes[i]
            } else {
                0u8
            },
    )
}

/// The offered method settles how to authenticate: it needs no credentials,
/// it is password authentication, or the connection has the user name and
/// the password that it needs.
pub open spec fn settles(con: &Connection, method: AuthMethod) -> bool {
    match method {
        AuthMethod::NoAuth => true,
        AuthMethod::Password => true,
        AuthMethod::AppleRemoteDesktop => con.username is Some && con.password is Some,
        AuthMethod::Unknown => false,
    }
}

/// The method that settles it cannot be taken: it is password
/// authentication, and the connection has no password.
pub open spec fn lacks_password(con: &Connection, method: AuthMethod) -> bool {
    method == AuthMethod::Password && con.password is None
}

/// What the method that settles it gives, where it can be taken.
pub open spec fn settled(con: &Connection, method: AuthMethod) -> Option<AuthChoiceView> {
    match method {
        AuthMethod::NoAuth => Some(AuthChoiceView::NoAuth),
        AuthMethod::Password => Some(
            AuthChoiceView::Password(password_key(con.password.unwrap().spec_bytes())),
        ),
        AuthMethod::AppleRemoteDesktop => Some(
            AuthChoiceView::AppleRemoteDesktop(con.username.unwrap()@, con.password.unwrap()@),
        ),
        AuthMethod::Unknown => None,
    }
}

/// The first of the offered methods from position `from` on that settles it
/// is password authentication, and the connection has no password.
pub open spec fn password_missing(con: &Connection, methods: Seq<AuthMethod>, from: int) -> bool
    decreases methods.len() - from,
{
    if from < 0 || from >= methods.len() {
        false
    } else if settles(con, methods[from]) {
        lacks_password(con, methods[from])
    } else {
        password_missing(con, methods, from + 1)
    }
}

/// What the offered methods from position `from` on give: the first of them
/// that settles it decides, and there is no choice where none does.
pub open spec fn auth_outcome(con: &Connection, methods: Seq<AuthMethod>, from: int) -> Option<
    AuthChoiceView,
>
    decreases methods.len() - from,
{
    if from < 0 || from >= methods.len() {
        None
    } else if settles(con, methods[from]) {
        settled(con, methods[from])
    } else {
        auth_outcome(con, methods, from + 1)
    }
}

/// The view of what `authenticate` has chosen.
pub open spec fn choice_view(choice: Option<AuthChoice>) -> Option<AuthChoiceView> {
    match choice {
        None => None,
        Some(c) => Some(c@),
    }
}

/// Builds the key for password authentication from the password's bytes.
pub fn key_from_password(password: &str) -> (key: [u8; 8])
    ensures
        key@ == password_key(password.spec_bytes()),
{
    let bytes = password.as_bytes();
    let mut key: [u8; 8] = [0u8; 8];
    let mut i: usize = 0;
    while i < 8 && i < bytes.len()
        invariant
            i <= 8,
            i <= bytes@.len(),
            bytes@ == password.spec_bytes(),
            forall|j: int| 0 <= j < i ==> #[trigger] key@[j] == bytes@[j],
            forall|j: int| i <= j < 8 ==> #[trigger] key@[j] == 0,
        decreases 8 - i,
    {
        key[i] = bytes[i];
        i += 1;
    }
    assert(key@ =~= password_key(password.spec_bytes()));
    key
}

/// Whether the offered methods ask for a password that the connection does
/// not have: the first method that settles how to authenticate is password
/// authentication, and the connection has no password.
pub fn needs_missing_password(con: &Connection, methods: &[AuthMethod]) -> (missing: bool)
    ensures
        missing == password_missing(con, methods@, 0),
{
    let mut i: usize = 0;
    while i < methods.len()
        invariant
            i <= methods@.len(),
            password_missing(con, methods@, 0) == password_missing(con, methods@, i as int),
        decreases methods@.len() - i,
    {
        match methods[i] {
            AuthMethod::NoAuth => {
                return false;
            },
            AuthMethod::Password => {
                return con.password.is_none();
            },
            AuthMethod::AppleRemoteDesktop => {
                if con.username.is_some() && con.password.is_some() {
                    return false;
                }
            },
            AuthMethod::Unknown => {},
        }
        i += 1;
    }
    false
}

/// Chooses how to authenticate among the methods that the server offers, in
/// the order in which it offers them.
///
/// The first method that can be taken decides. Where no offered method can
/// be taken there is no choice. The offered methods must not ask for a
/// password that the connection does not have; `needs_missing_password`
/// tells.
pub fn authenticate(con: &Connection, methods: &[AuthMethod]) -> (choice: Option<AuthChoice>)
    requires
        !password_missing(con, methods@, 0),
    ensures
        choice_view(choice) == auth_outcome(con, methods@, 0),
{
    let mut i: usize = 0;
    while i < methods.len()
        invariant
            i <= methods@.len(),
            !password_missing(con, methods@, i as int),
            auth_outcome(con, methods@, 0) == auth_outcome(con, methods@, i as int),
        decreases methods@.len() - i,
    {
        match methods[i] {
            AuthMethod::NoAuth => {
                return Some(AuthChoice::NoAuth);
            },
            AuthMethod::Password => {
                return match con.password {
                    None => vstd::pervasive::unreached(),
                    Some(password) => Some(AuthChoice::Password(key_from_password(password))),
                };
            },
            AuthMethod::AppleRemoteDesktop => {
                match (con.username, con.password) {
                    (Some(username), Some(password)) => {
                        return Some(
                            AuthChoice::AppleRemoteDesktop(
                                username.to_owned(),
                                password.to_owned(),
                            ),
                        );
                    },
                    _ => {},
                }
            },
            AuthMethod::Unknown => {},
        }
        i += 1;
    }
    None
}

/// The pixel format that the client asks the server for.
pub fn sd_color_format() -> (format: PixelFormat)
    ensures
        format == (PixelFormat {
            bits_per_pixel: 8,
            depth: 16,
            big_endian: false,
            true_colour: true,
            red_max: 255,
            green_max: 255,
            blue_max: 255,
            red_shift: 16,
            green_shift: 8,
            blue_shift: 0,
        }),
{
    PixelFormat {
        bits_per_pixel: 8,
        depth: 16,
        big_endian: false,
        true_colour: true,
        red_max: 255,
        green_max: 255,
        blue_max: 255,
        red_shift: 16,
        green_shift: 8,
        blue_shift: 0,
    }
}

/// The region that covers a frame buffer of the given width and height.
pub fn full_rect(size: (u16, u16)) -> (rect: Rect)
    ensures
        rect == (Rect { left: 0, top: 0, width: size.0, height: size.1 }),
{
    Rect { left: 0, top: 0, width: size.0, height: size.1 }
}

} // verus!
