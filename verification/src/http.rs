//! HTTP messages as plain values, and the steps by which the library drives
//! an exchange it cannot perform itself.
//!
//! The library never touches the network or the store. An operation that
//! needs them is a state machine: each step hands out one [`Effect`] to
//! carry out, and is resumed with the [`Reply`] to it.

use crate::error::{AppError, ErrorKind};
use crate::models::{DPoPKeyPair, OAuthSessionRecord};
use crate::store::{commands_view, StoreCommand, StoreCommandView};
use crate::text::{ascii_lower, chars_eq, chars_of, chars_to_ascii_lower};
use vstd::prelude::*;
use vstd::string::*;

verus! {

/// One header line.
#[derive(Debug)]
pub struct Header {
    pub name: String,
    pub value: String,
}

/// Header lines as pairs of name and value.
pub open spec fn header_pairs(headers: Seq<Header>) -> Seq<(Seq<char>, Seq<char>)> {
    headers.map_values(|h: Header| (h.name@, h.value@))
}

/// The value of the first header at or after `from` whose name is `name`,
/// letter case aside. `name` is given in lower case.
pub open spec fn header_from(headers: Seq<Header>, name: Seq<char>, from: int) -> Option<
    Seq<char>,
>
    decreases headers.len() - from,
{
    if from < 0 || from >= headers.len() {
        None
    } else if ascii_lower(headers[from].name@) == name {
        Some(headers[from].value@)
    } else {
        header_from(headers, name, from + 1)
    }
}

/// The value of the first header named `name`, letter case aside.
pub open spec fn header_of(headers: Seq<Header>, name: Seq<char>) -> Option<Seq<char>> {
    header_from(headers, name, 0)
}

/// The status is one of success (2xx).
pub open spec fn is_success(status: u16) -> bool {
    200 <= status <= 299
}

/// Whether `status` is one of success (2xx).
pub fn status_is_success(status: u16) -> (r: bool)
    ensures
        r == is_success(status),
{
    200 <= status && status <= 299
}

/// Looks a header up by name, letter case aside. `name` is given in lower
/// case.
pub fn header_value(headers: &Vec<Header>, name: &str) -> (r: Option<String>)
    ensures
        r.deep_view() == header_of(headers@, name@),
{
    let wanted = chars_of(name);
    let mut i: usize = 0;
    while i < headers.len()
        invariant
            i <= headers.len(),
            wanted@ == name@,
            header_of(headers@, name@) == header_from(headers@, name@, i as int),
        decreases headers.len() - i,
    {
        let lower = chars_to_ascii_lower(&chars_of(headers[i].name.as_str()));
        if chars_eq(&lower, &wanted) {
            return Some(headers[i].value.clone());
        }
        i += 1;
    }
    None
}

/// A form posted to an endpoint of an authorization server, with a DPoP
/// proof. Its content type is `application/x-www-form-urlencoded`.
#[derive(Debug)]
pub struct FormPost {
    pub url: String,
    /// The value of the `DPoP` header.
    pub dpop: String,
    pub body: String,
}

/// [`FormPost`] as plain values.
pub struct FormPostView {
    pub url: Seq<char>,
    pub dpop: Seq<char>,
    pub body: Seq<char>,
}

impl View for FormPost {
    type V = FormPostView;

    open spec fn view(&self) -> FormPostView {
        FormPostView { url: self.url@, dpop: self.dpop@, body: self.body@ }
    }
}

/// Something for the program around the library to carry out.
#[derive(Debug)]
pub enum Effect {
    /// Send `GET url`; answer with [`Reply::Response`].
    Get { url: String },
    /// Post the form; answer with [`Reply::Response`].
    Post(FormPost),
    /// Read a session's OAuth record and DPoP key pair from the store;
    /// answer with [`Reply::Material`].
    Load { oauth_session_key: String, dpop_key: String },
    /// Carry out the commands in order, going on after one that fails;
    /// answer with [`Reply::Stored`], or with [`Reply::Failed`] if any
    /// failed.
    Store(Vec<StoreCommand>),
}

/// What came of an [`Effect`].
#[derive(Debug)]
pub enum Reply {
    /// The response to a request.
    Response { status: u16, headers: Vec<Header>, body: String },
    /// What the store holds for a session; `None` for what is missing.
    Material { record: Option<OAuthSessionRecord>, key: Option<DPoPKeyPair> },
    /// The commands were carried out.
    Stored,
    /// The effect could not be carried out.
    Failed(String),
}

/// What a state machine asks for next: an effect, after which it goes on
/// as `next`, or nothing more because the operation has come to its result.
#[derive(Debug)]
pub enum Step<M, T> {
    Do { next: M, effect: Effect },
    Done(Result<T, AppError>),
}

/// The step ends the operation with an error of the given kind.
pub open spec fn fails_with<M, T>(step: Step<M, T>, kind: ErrorKind) -> bool {
    step matches Step::Done(Err(e)) && e@.kind == kind
}

/// The step asks to fetch `url`.
pub open spec fn asks_get<M, T>(step: Step<M, T>, url: Seq<char>) -> bool {
    step matches Step::Do { effect: Effect::Get { url: u }, .. } && u@ == url
}

/// The step asks to post `post`.
pub open spec fn asks_post<M, T>(step: Step<M, T>, post: FormPostView) -> bool {
    step matches Step::Do { effect: Effect::Post(p), .. } && p@ == post
}

/// The step asks the store to carry out `commands`.
pub open spec fn asks_store<M, T>(step: Step<M, T>, commands: Seq<StoreCommandView>) -> bool {
    step matches Step::Do { effect: Effect::Store(c), .. } && commands_view(c@) == commands
}

} // verus!
