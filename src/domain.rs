//! Identity validators: raw form input becomes a well-formed subscriber name
//! and email, or a validation message.

use vstd::prelude::*;
use vstd::string::*;

verus! {

/// The longest subscriber name that is accepted, in characters.
pub const NAME_MAX_LEN: usize = 256;

/// Unicode `White_Space` characters, exactly those for which
/// `char::is_whitespace` holds.
pub open spec fn is_whitespace_char(c: char) -> bool {
    let u = c as u32;
    u == 0x20 || (0x09 <= u && u <= 0x0d) || u == 0x85 || u == 0xa0 || u == 0x1680
        || (0x2000 <= u && u <= 0x200a) || u == 0x2028 || u == 0x2029 || u == 0x202f
        || u == 0x205f || u == 0x3000
}

/// Characters that a name may not hold.
pub open spec fn is_forbidden_char(c: char) -> bool {
    c == '/' || c == '(' || c == ')' || c == '"' || c == '<' || c == '>' || c == '\\'
        || c == '{' || c == '}'
}

pub open spec fn is_blank(s: Seq<char>) -> bool {
    forall|i: int| 0 <= i < s.len() ==> is_whitespace_char(#[trigger] s[i])
}

/// A valid name is not blank, has at most `NAME_MAX_LEN` characters and holds
/// no forbidden character.
pub open spec fn valid_name(s: Seq<char>) -> bool {
    &&& !is_blank(s)
    &&& s.len() <= NAME_MAX_LEN
    &&& forall|i: int| 0 <= i < s.len() ==> !is_forbidden_char(#[trigger] s[i])
}

/// `s` splits at its only `@` (at index `at`) into a non-empty local part and
/// a domain that holds a dot neither at its start nor at its end; `s` holds no
/// whitespace.
pub open spec fn email_split_at(s: Seq<char>, at: int) -> bool {
    &&& 0 < at < s.len()
    &&& s[at] == '@'
    &&& forall|j: int| 0 <= j < s.len() && j != at ==> #[trigger] s[j] != '@'
    &&& exists|d: int| at + 1 < d < s.len() - 1 && #[trigger] s[d] == '.'
    &&& forall|j: int| 0 <= j < s.len() ==> !is_whitespace_char(#[trigger] s[j])
}

/// A valid email has the shape `local@domain.tld`.
pub open spec fn valid_email(s: Seq<char>) -> bool {
    exists|at: int| email_split_at(s, at)
}

pub open spec fn invalid_name_message(s: Seq<char>) -> Seq<char> {
    s + " is not a valid subscriber name."@
}

pub open spec fn invalid_email_message(s: Seq<char>) -> Seq<char> {
    s + " is not a valid subscriber email."@
}

/// The characters of `s`, in order.
fn chars_of(s: &str) -> (v: Vec<char>)
    ensures
        v@ == s@,
{
    let n = s.unicode_len();
    let mut v: Vec<char> = Vec::new();
    let mut i: usize = 0;
    while i < n
        invariant
            n == s@.len(),
            i <= n,
            v@ == s@.subrange(0, i as int),
        decreases n - i,
    {
        v.push(s.get_char(i));
        i = i + 1;
    }
    assert(v@ == s@);
    v
}

fn is_whitespace(c: char) -> (r: bool)
    ensures
        r == is_whitespace_char(c),
{
    let u = c as u32;
    u == 0x20 || (0x09 <= u && u <= 0x0d) || u == 0x85 || u == 0xa0 || u == 0x1680 || (0x2000
        <= u && u <= 0x200a) || u == 0x2028 || u == 0x2029 || u == 0x202f || u == 0x205f || u
        == 0x3000
}

fn is_forbidden(c: char) -> (r: bool)
    ensures
        r == is_forbidden_char(c),
{
    c == '/' || c == '(' || c == ')' || c == '"' || c == '<' || c == '>' || c == '\\' || c == '{'
        || c == '}'
}

/// The first index at or after `from` that holds `c`.
fn find_char(v: &Vec<char>, c: char, from: usize) -> (r: Option<usize>)
    ensures
        r matches Some(i) ==> from <= i < v@.len() && v@[i as int] == c,
        forall|j: int|
            from <= j < v@.len() && (r matches Some(i) ==> j < i) ==> #[trigger] v@[j] != c,
{
    let mut i: usize = from;
    while i < v.len()
        invariant
            from <= i,
            forall|j: int| from <= j < i && j < v@.len() ==> #[trigger] v@[j] != c,
        decreases v.len() - i,
    {
        if v[i] == c {
            return Some(i);
        }
        i = i + 1;
    }
    None
}

fn all_whitespace(v: &Vec<char>) -> (r: bool)
    ensures
        r == is_blank(v@),
{
    let mut i: usize = 0;
    while i < v.len()
        invariant
            i <= v@.len(),
            forall|j: int| 0 <= j < i ==> is_whitespace_char(#[trigger] v@[j]),
        decreases v.len() - i,
    {
        if !is_whitespace(v[i]) {
            return false;
        }
        i = i + 1;
    }
    true
}

fn any_whitespace(v: &Vec<char>) -> (r: bool)
    ensures
        r == exists|j: int| 0 <= j < v@.len() && is_whitespace_char(#[trigger] v@[j]),
{
    let mut i: usize = 0;
    while i < v.len()
        invariant
            i <= v@.len(),
            forall|j: int| 0 <= j < i ==> !is_whitespace_char(#[trigger] v@[j]),
        decreases v.len() - i,
    {
        if is_whitespace(v[i]) {
            return true;
        }
        i = i + 1;
    }
    false
}

fn any_forbidden(v: &Vec<char>) -> (r: bool)
    ensures
        r == exists|j: int| 0 <= j < v@.len() && is_forbidden_char(#[trigger] v@[j]),
{
    let mut i: usize = 0;
    while i < v.len()
        invariant
            i <= v@.len(),
            forall|j: int| 0 <= j < i ==> !is_forbidden_char(#[trigger] v@[j]),
        decreases v.len() - i,
    {
        if is_forbidden(v[i]) {
            return true;
        }
        i = i + 1;
    }
    false
}

/// Decides `valid_name`.
pub fn is_valid_name(s: &str) -> (r: bool)
    ensures
        r == valid_name(s@),
{
    let v = chars_of(s);
    if v.len() > NAME_MAX_LEN {
        return false;
    }
    !all_whitespace(&v) && !any_forbidden(&v)
}

/// Decides `valid_email`.
pub fn is_valid_email(s: &str) -> (r: bool)
    ensures
        r == valid_email(s@),
{
    let v = chars_of(s);
    let n = v.len();
    let first = find_char(&v, '@', 0);
    match first {
        None => {
            assert forall|at: int| !email_split_at(s@, at) by {
                if 0 <= at < s@.len() {
                    assert(v@[at] != '@');
                }
            }
            false
        },
        Some(at) => {
            assert forall|k: int| k != at implies !email_split_at(s@, k) by {
                if 0 <= k < s@.len() && k != at && email_split_at(s@, k) {
                    assert(s@[at as int] != '@');
                }
            }
            if at == 0 || at + 1 >= n {
                return false;
            }
            if find_char(&v, '@', at + 1).is_some() {
                return false;
            }
            if any_whitespace(&v) {
                return false;
            }
            match find_char(&v, '.', at + 2) {
                None => {
                    assert(!email_split_at(s@, at as int));
                    false
                },
                Some(d) => {
                    if d + 1 < n {
                        assert(email_split_at(s@, at as int)) by {
                            assert(s@[d as int] == '.');
                            assert forall|j: int| 0 <= j < s@.len() && j != at implies #[trigger] s@[j]
                                != '@' by {
                                if j < at {
                                    assert(v@[j] != '@');
                                }
                            }
                        }
                        true
                    } else {
                        assert(!email_split_at(s@, at as int));
                        false
                    }
                },
            }
        },
    }
}

/// A subscriber's display name; always satisfies `valid_name`.
#[derive(Debug)]
pub struct SubscriberName {
    value: String,
}

impl View for SubscriberName {
    type V = Seq<char>;

    closed spec fn view(&self) -> Seq<char> {
        self.value@
    }
}

impl SubscriberName {
    #[verifier::type_invariant]
    spec fn inv(&self) -> bool {
        valid_name(self.value@)
    }

    /// Accepts `s` exactly when it is a valid name.
    pub fn parse(s: String) -> (r: Result<SubscriberName, String>)
        ensures
            r is Ok <==> valid_name(s@),
            r matches Ok(n) ==> n@ == s@,
            r matches Err(m) ==> m@ == invalid_name_message(s@),
    {
        if is_valid_name(s.as_str()) {
            Ok(SubscriberName { value: s })
        } else {
            let mut m = s;
            m.append(" is not a valid subscriber name.");
            Err(m)
        }
    }

    pub fn as_str(&self) -> (r: &str)
        ensures
            r@ == self@,
    {
        self.value.as_str()
    }
}

/// A subscriber's email address; always satisfies `valid_email`.
#[derive(Debug)]
pub struct SubscriberEmail {
    value: String,
}

impl View for SubscriberEmail {
    type V = Seq<char>;

    closed spec fn view(&self) -> Seq<char> {
        self.value@
    }
}

impl SubscriberEmail {
    #[verifier::type_invariant]
    spec fn inv(&self) -> bool {
        valid_email(self.value@)
    }

    /// Accepts `s` exactly when it is a valid email.
    pub fn parse(s: String) -> (r: Result<SubscriberEmail, String>)
        ensures
            r is Ok <==> valid_email(s@),
            r matches Ok(e) ==> e@ == s@,
            r matches Err(m) ==> m@ == invalid_email_message(s@),
    {
        if is_valid_email(s.as_str()) {
            Ok(SubscriberEmail { value: s })
        } else {
            let mut m = s;
            m.append(" is not a valid subscriber email.");
            Err(m)
        }
    }

    pub fn as_str(&self) -> (r: &str)
        ensures
            r@ == self@,
    {
        self.value.as_str()
    }
}

/// The raw fields of a subscription form.
#[derive(Debug)]
pub struct FormData {
    pub email: String,
    pub name: String,
}

/// A validated subscription request.
#[derive(Debug)]
pub struct NewSubscriber {
    pub email: SubscriberEmail,
    pub name: SubscriberName,
}

/// The message of the first field that fails validation (the name is
/// checked first), or none when both are valid.
pub open spec fn form_rejection(name: Seq<char>, email: Seq<char>) -> Option<Seq<char>> {
    if !valid_name(name) {
        Some(invalid_name_message(name))
    } else if !valid_email(email) {
        Some(invalid_email_message(email))
    } else {
        None
    }
}

impl NewSubscriber {
    /// Validates both fields of a form.
    pub fn try_from(value: FormData) -> (r: Result<NewSubscriber, String>)
        ensures
            form_rejection(value.name@, value.email@) matches Some(m) ==> (r matches Err(e)
                && e@ == m),
            form_rejection(value.name@, value.email@) is None ==> (r matches Ok(n) && n.name@
                == value.name@ && n.email@ == value.email@),
    {
        let name = match SubscriberName::parse(value.name) {
            Ok(n) => n,
            Err(m) => return Err(m),
        };
        let email = match SubscriberEmail::parse(value.email) {
            Ok(e) => e,
            Err(m) => return Err(m),
        };
        Ok(NewSubscriber { email, name })
    }
}

} // verus!
