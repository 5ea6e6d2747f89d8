//! The login tab: typing the account and the password, and what a login
//! answer leaves in the tab.
use crate::app::{Action, Key, Tab, TabBinding, bindings_model};
use crate::text::to_owned_string;
use vstd::prelude::*;

verus! {

/// The text input that receives the keys.
#[derive(Clone, Copy, PartialEq, Eq, Structural)]
pub enum InputBox {
    Account,
    Password,
}

pub struct LoginTab {
    pub account: String,
    pub password: String,
    pub uuid: String,
    pub token: String,
    pub name: String,
    pub user_type: String,
    pub selected: InputBox,
    pub error: String,
    /// Enter was pressed: the caller logs in with the account and password
    /// and hands the answer to `finish_login`.
    pub pending_login: bool,
}

/// What the authentication server answered: the access token and, when the
/// account has one, the selected profile's name and identifier.
pub struct LoginReply {
    pub access_token: String,
    pub profile: Option<(String, String)>,
}

/// Calls `uuid::Uuid::new_v4` and writes the identifier with `to_string`.
/// Claimed, as the crate's formatting code shows: 36 characters, hyphens at
/// positions 8, 13, 18 and 23, and the version digit `4` at position 14.
/// The other digits are random and nothing is said of them.
#[verifier::external_body]
fn new_uuid() -> (r: String)
    ensures
        r@.len() == 36,
        r@[8] == '-' && r@[13] == '-' && r@[18] == '-' && r@[23] == '-',
        r@[14] == '4',
{
    uuid::Uuid::new_v4().to_string()
}

/// Calls `String::push` of the standard library. Claimed, as its
/// documentation says: the character is appended to the text.
#[verifier::external_body]
fn push_char(s: &mut String, c: char)
    ensures
        final(s)@ == old(s)@.push(c),
{
    s.push(c)
}

/// The text without its last character.
fn without_last(s: &String) -> (r: String)
    requires
        s@.len() > 0,
    ensures
        r@ == s@.drop_last(),
{
    let n = s.as_str().unicode_len();
    let r = to_owned_string(s.as_str().substring_char(0, n - 1));
    assert(r@ =~= s@.drop_last());
    r
}

/// A character of one byte: removing the last byte of a text that ends
/// with one removes that character.
pub open spec fn one_byte(c: char) -> bool {
    (c as u32) < 128
}

/// Backspace can be pressed: the selected input is empty or ends with a
/// character of one byte.
pub open spec fn backspace_defined(t: LoginTab) -> bool {
    let s = match t.selected {
        InputBox::Account => t.account@,
        InputBox::Password => t.password@,
    };
    s.len() > 0 ==> one_byte(s.last())
}

/// The other input.
pub open spec fn other_box(b: InputBox) -> InputBox {
    match b {
        InputBox::Account => InputBox::Password,
        InputBox::Password => InputBox::Account,
    }
}

/// The fields other than the two inputs are unchanged.
pub open spec fn session_unchanged(a: LoginTab, b: LoginTab) -> bool {
    &&& b.uuid@ == a.uuid@ && b.token@ == a.token@ && b.name@ == a.name@
    &&& b.user_type@ == a.user_type@ && b.error@ == a.error@
}

/// The keys of the login tab.
pub open spec fn login_bindings_model() -> Seq<(Seq<char>, Seq<char>, Option<bool>)> {
    seq![
        ("TAB"@, "Select the other text input"@, None::<bool>),
        ("BACKSPACE/DELETE"@, "Remove the last character of the selected text input"@, None::<bool>),
        ("ENTER"@, "Try to login"@, None::<bool>),
    ]
}

/// What a key does to the login tab (`a` before, `b` after) and asks of
/// the application (`r`): Enter asks for a login; Tab switches the input;
/// Backspace removes the last character of the selected input, if any; a
/// character is added to it.
pub open spec fn login_key_effect(a: LoginTab, key: Key, b: LoginTab, r: Action) -> bool {
    &&& r is Nothing
    &&& session_unchanged(a, b)
    &&& match key {
        Key::Enter => b.pending_login && b.account@ == a.account@ && b.password@ == a.password@
            && b.selected == a.selected,
        Key::Tab => b.selected == other_box(a.selected) && b.account@ == a.account@
            && b.password@ == a.password@ && b.pending_login == a.pending_login,
        Key::Backspace => b.selected == a.selected && b.pending_login == a.pending_login && match a.selected {
            InputBox::Account => b.password@ == a.password@ && b.account@ == if a.account@.len() > 0 {
                a.account@.drop_last()
            } else {
                a.account@
            },
            InputBox::Password => b.account@ == a.account@ && b.password@ == if a.password@.len()
                > 0 {
                a.password@.drop_last()
            } else {
                a.password@
            },
        },
        Key::Char(c) => b.selected == a.selected && b.pending_login == a.pending_login && match a.selected {
            InputBox::Account => b.account@ == a.account@.push(c) && b.password@ == a.password@,
            InputBox::Password => b.password@ == a.password@.push(c) && b.account@ == a.account@,
        },
        _ => b.selected == a.selected && b.account@ == a.account@ && b.password@ == a.password@
            && b.pending_login == a.pending_login,
    }
}

impl LoginTab {
    /// An empty login form on the account input, with a fresh random
    /// identifier.
    pub fn new() -> (r: LoginTab)
        ensures
            r.account@ == Seq::<char>::empty() && r.password@ == Seq::<char>::empty(),
            r.token@ == Seq::<char>::empty() && r.name@ == Seq::<char>::empty(),
            r.user_type@ == Seq::<char>::empty() && r.error@ == Seq::<char>::empty(),
            r.uuid@.len() == 36,
            r.uuid@[8] == '-' && r.uuid@[13] == '-' && r.uuid@[18] == '-' && r.uuid@[23] == '-',
            r.uuid@[14] == '4',
            r.selected == InputBox::Account,
            !r.pending_login,
    {
        LoginTab {
            account: String::new(),
            password: String::new(),
            uuid: new_uuid(),
            token: String::new(),
            name: String::new(),
            user_type: String::new(),
            selected: InputBox::Account,
            error: String::new(),
            pending_login: false,
        }
    }

    /// Whether Backspace can be pressed (see `backspace_defined`).
    pub fn can_erase(&self) -> (r: bool)
        ensures
            r == backspace_defined(*self),
    {
        let s = match self.selected {
            InputBox::Account => self.account.as_str(),
            InputBox::Password => self.password.as_str(),
        };
        let n = s.unicode_len();
        if n == 0 {
            true
        } else {
            let c = s.get_char(n - 1);
            (c as u32) < 128
        }
    }

    /// Handles a key (see `login_key_effect`).
    pub fn on_key_press(&mut self, key: Key) -> (r: Action)
        requires
            key == Key::Backspace ==> backspace_defined(*old(self)),
        ensures
            login_key_effect(*old(self), key, *final(self), r),
    {
        match key {
            Key::Enter => {
                self.pending_login = true;
            },
            Key::Tab => {
                self.selected = match self.selected {
                    InputBox::Account => InputBox::Password,
                    InputBox::Password => InputBox::Account,
                };
            },
            Key::Backspace => {
                match self.selected {
                    InputBox::Account => {
                        if self.account.as_str().unicode_len() > 0 {
                            self.account = without_last(&self.account);
                        }
                    },
                    InputBox::Password => {
                        if self.password.as_str().unicode_len() > 0 {
                            self.password = without_last(&self.password);
                        }
                    },
                }
            },
            Key::Char(c) => {
                match self.selected {
                    InputBox::Account => push_char(&mut self.account, c),
                    InputBox::Password => push_char(&mut self.password, c),
                }
            },
            _ => {},
        }
        Action::Nothing
    }

    /// Takes the login answer: a success keeps the token, the profile's name
    /// and identifier when there is a profile, and the `mojang` user type,
    /// and clears the error; a failure keeps its message. With no error
    /// left, the version tab opens.
    pub fn finish_login(&mut self, reply: Result<LoginReply, String>) -> (r: Action)
        ensures
            !final(self).pending_login,
            final(self).account@ == old(self).account@,
            final(self).password@ == old(self).password@,
            final(self).selected == old(self).selected,
            match reply {
                Ok(rep) => {
                    &&& final(self).token@ == rep.access_token@
                    &&& final(self).user_type@ == "mojang"@
                    &&& final(self).error@ == Seq::<char>::empty()
                    &&& match rep.profile {
                        Some((n, id)) => final(self).name@ == n@ && final(self).uuid@ == id@,
                        None => final(self).name@ == old(self).name@ && final(self).uuid@
                            == old(self).uuid@,
                    }
                },
                Err(e) => final(self).error@ == e@ && final(self).token@ == old(self).token@
                    && final(self).name@ == old(self).name@ && final(self).uuid@ == old(self).uuid@
                    && final(self).user_type@ == old(self).user_type@,
            },
            final(self).error@.len() == 0 ==> r matches Action::NextTab(Tab::Version),
            final(self).error@.len() > 0 ==> r is Nothing,
    {
        self.pending_login = false;
        match reply {
            Ok(rep) => {
                self.token = rep.access_token;
                match rep.profile {
                    None => {},
                    Some((n, id)) => {
                        self.name = n;
                        self.uuid = id;
                    },
                }
                self.user_type = to_owned_string("mojang");
                self.error = String::new();
            },
            Err(e) => {
                self.error = e;
            },
        }
        if self.error.as_str().unicode_len() == 0 {
            Action::NextTab(Tab::Version)
        } else {
            Action::Nothing
        }
    }

    /// The password as shown: one `*` per character.
    pub fn hidden_password(&self) -> (r: String)
        ensures
            r@.len() == self.password@.len(),
            forall|i: int| 0 <= i < r@.len() ==> r@[i] == '*',
    {
        let n = self.password.as_str().unicode_len();
        let mut out = String::new();
        let mut i: usize = 0;
        while i < n
            invariant
                i <= n,
                n == self.password@.len(),
                out@.len() == i,
                forall|k: int| 0 <= k < out@.len() ==> out@[k] == '*',
            decreases n - i,
        {
            push_char(&mut out, '*');
            i = i + 1;
        }
        out
    }

    /// The login tab never moves on by itself.
    pub fn tick(&self) -> (r: Action)
        ensures
            r is Nothing,
    {
        Action::Nothing
    }

    pub fn get_bindings(&self) -> (r: Vec<TabBinding>)
        ensures
            bindings_model(r@) == login_bindings_model(),
    {
        let mut vec: Vec<TabBinding> = Vec::new();
        vec.push(TabBinding::Default(to_owned_string("TAB"), to_owned_string("Select the other text input")));
        vec.push(TabBinding::Default(to_owned_string("BACKSPACE/DELETE"), to_owned_string("Remove the last character of the selected text input")));
        vec.push(TabBinding::Default(to_owned_string("ENTER"), to_owned_string("Try to login")));
        assert(bindings_model(vec@) =~= seq![
            ("TAB"@, "Select the other text input"@, None::<bool>),
            ("BACKSPACE/DELETE"@, "Remove the last character of the selected text input"@, None::<bool>),
            ("ENTER"@, "Try to login"@, None::<bool>),
        ]);
        vec
    }
}

/// Typing a character of one byte and then pressing Backspace gives back
/// both inputs as they were, and Backspace can always be pressed after
/// such a character.
pub proof fn lemma_type_then_erase(
    a: LoginTab,
    c: char,
    b: LoginTab,
    r1: Action,
    d: LoginTab,
    r2: Action,
)
    requires
        one_byte(c),
        login_key_effect(a, Key::Char(c), b, r1),
        login_key_effect(b, Key::Backspace, d, r2),
    ensures
        backspace_defined(b),
        d.account@ == a.account@,
        d.password@ == a.password@,
        d.selected == a.selected,
{
    assert(a.account@.push(c).drop_last() =~= a.account@);
    assert(a.password@.push(c).drop_last() =~= a.password@);
}

} // verus!
