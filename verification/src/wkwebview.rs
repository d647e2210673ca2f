//! The web view's navigation policy: which pages load, which are handed back to
//! the game's own delegate, which leave the app, and which are replaced by the
//! login and register pages of the backend. Also the record of the game's own
//! delegate methods, one per delegate class.
use vstd::prelude::*;
use std::collections::HashMap;
use crate::text::{chars_of, contains_chars, has_substring, same_text};

verus! {

/// What the navigation hook does with one navigation action.
pub enum NavigationDecision {
    /// Let the web view load the page (decision "allow").
    Allow,
    /// Hand the action to the delegate's own method.
    CallDelegate,
    /// Cancel it in the web view and open the URL with the system.
    OpenExternally,
    /// Allow it, then load this URL in the web view in its place.
    LoadInstead(String),
}

/// What the hook reads from one navigation action.
pub struct NavigationRequest {
    /// The navigation targets the main frame (or no frame).
    pub is_main_frame: bool,
    /// The action, its request and the request's URL are all present.
    pub has_url: bool,
    /// The URL's scheme, when it has one.
    pub scheme: Option<String>,
    /// The URL's host, when it has one.
    pub host: Option<String>,
    /// The URL's absolute string, when it has one that is valid UTF-8.
    pub absolute_url: Option<String>,
}

/// The scheme of the game's own login callback.
pub open spec fn game_scheme() -> Seq<char> {
    "com.epicgames.fortnite"@
}

/// The URL is the game's own login callback, which its delegate handles.
pub open spec fn is_game_callback(scheme: Seq<char>, host: Option<String>) -> bool {
    &&& scheme == game_scheme()
    &&& host matches Some(h) && h@ == "authorize"@
}

/// The scheme is one a web view loads itself.
pub open spec fn is_web_scheme(scheme: Seq<char>) -> bool {
    scheme == "http"@ || scheme == "https"@
}

/// The backend page that replaces a page with absolute URL `abs`, if any.
pub open spec fn replacement_page(abs: Seq<char>, login: Seq<char>, register: Seq<char>) -> Option<
    Seq<char>,
> {
    if has_substring(abs, "/id/login"@) {
        Some(login)
    } else if has_substring(abs, "/id/register"@) {
        Some(register)
    } else {
        None
    }
}

/// `d` is the hook's decision for `req`.
pub open spec fn navigation_matches(
    req: NavigationRequest,
    login: Seq<char>,
    register: Seq<char>,
    d: NavigationDecision,
) -> bool {
    if !req.is_main_frame {
        d is Allow
    } else if !req.has_url {
        d is CallDelegate
    } else if req.scheme is Some && is_game_callback(req.scheme->0@, req.host) {
        d is CallDelegate
    } else if req.scheme is Some && !is_web_scheme(req.scheme->0@) {
        d is OpenExternally
    } else {
        match req.absolute_url {
            None => d is CallDelegate,
            Some(abs) => match replacement_page(abs@, login, register) {
                Some(target) => d matches NavigationDecision::LoadInstead(t) && t@ == target,
                None => d is Allow,
            },
        }
    }
}

/// Decides what to do with one navigation action.
///
/// Sub-frame navigations load. With no URL, or with the game's own login
/// callback, the delegate's own method decides. Other schemes than http and
/// https leave the app. A URL whose absolute string holds "/id/login" or
/// "/id/register" is replaced by the backend's login or register page; any
/// other page loads, and one with no readable absolute string goes to the
/// delegate's own method.
pub fn decide_navigation(req: &NavigationRequest, login_url: &str, register_url: &str) -> (d:
    NavigationDecision)
    ensures
        navigation_matches(*req, login_url@, register_url@, d),
{
    if !req.is_main_frame {
        return NavigationDecision::Allow;
    }
    if !req.has_url {
        return NavigationDecision::CallDelegate;
    }
    match &req.scheme {
        Some(scheme) => {
            let is_game = same_text(scheme.as_str(), "com.epicgames.fortnite") && match &req.host {
                Some(h) => same_text(h.as_str(), "authorize"),
                None => false,
            };
            if is_game {
                return NavigationDecision::CallDelegate;
            }
            if !same_text(scheme.as_str(), "http") && !same_text(scheme.as_str(), "https") {
                return NavigationDecision::OpenExternally;
            }
        },
        None => {},
    }
    match &req.absolute_url {
        None => NavigationDecision::CallDelegate,
        Some(abs) => {
            let v = chars_of(abs.as_str());
            if contains_chars(&v, &chars_of("/id/login")) {
                NavigationDecision::LoadInstead(login_url.to_owned())
            } else if contains_chars(&v, &chars_of("/id/register")) {
                NavigationDecision::LoadInstead(register_url.to_owned())
            } else {
                NavigationDecision::Allow
            }
        },
    }
}

/// The delegate's own `webView:decidePolicyForNavigationAction:decisionHandler:`
/// implementation for each delegate class the hook has been installed on,
/// both as addresses.
pub struct DelegateImps {
    imps: HashMap<usize, usize>,
}

impl View for DelegateImps {
    type V = Map<usize, usize>;

    closed spec fn view(&self) -> Map<usize, usize> {
        self.imps@
    }
}

impl DelegateImps {
    /// An empty record.
    pub fn new() -> (r: DelegateImps)
        ensures
            r@ == Map::<usize, usize>::empty(),
    {
        DelegateImps { imps: HashMap::new() }
    }

    /// Whether the hook is already installed on class `cls`.
    pub fn is_hooked(&self, cls: usize) -> (b: bool)
        ensures
            b == self@.contains_key(cls),
    {
        broadcast use vstd::std_specs::hash::group_hash_axioms;
        self.imps.contains_key(&cls)
    }

    /// The delegate's own implementation recorded for class `cls`.
    pub fn delegate_imp(&self, cls: usize) -> (r: Option<usize>)
        ensures
            match r {
                Some(imp) => self@.contains_key(cls) && self@[cls] == imp,
                None => !self@.contains_key(cls),
            },
    {
        broadcast use vstd::std_specs::hash::group_hash_axioms;
        match self.imps.get(&cls) {
            Some(imp) => Some(*imp),
            None => None,
        }
    }

    /// Records `imp` as class `cls`'s own implementation, unless one is recorded
    /// already; says whether it recorded it.
    pub fn record(&mut self, cls: usize, imp: usize) -> (added: bool)
        ensures
            added == !old(self)@.contains_key(cls),
            final(self)@ == recorded(old(self)@, cls, imp),
    {
        broadcast use vstd::std_specs::hash::group_hash_axioms;
        if self.imps.contains_key(&cls) {
            false
        } else {
            self.imps.insert(cls, imp);
            true
        }
    }
}

/// The record after recording `imp` for class `cls` in `m`: unchanged when `cls`
/// has an entry already.
pub open spec fn recorded(m: Map<usize, usize>, cls: usize, imp: usize) -> Map<usize, usize> {
    if m.contains_key(cls) {
        m
    } else {
        m.insert(cls, imp)
    }
}

/// The first implementation recorded for a class stays: after recording `first`
/// for `cls`, the class has an entry, it is the one it had before or else
/// `first`, and recording `second` for it changes nothing. Other classes keep
/// their entries.
pub proof fn lemma_first_record_wins(
    m: Map<usize, usize>,
    cls: usize,
    first: usize,
    second: usize,
    other: usize,
)
    requires
        other != cls,
    ensures
        recorded(m, cls, first).contains_key(cls),
        recorded(m, cls, first)[cls] == (if m.contains_key(cls) {
            m[cls]
        } else {
            first
        }),
        recorded(recorded(m, cls, first), cls, second) == recorded(m, cls, first),
        recorded(m, cls, first).contains_key(other) == m.contains_key(other),
        m.contains_key(other) ==> recorded(m, cls, first)[other] == m[other],
{
}

/// Sub-frame navigations always load: whatever their URL, scheme, host and
/// absolute string, the only decision for them is `Allow`.
pub proof fn lemma_sub_frames_allowed(
    req: NavigationRequest,
    login: Seq<char>,
    register: Seq<char>,
    d: NavigationDecision,
)
    requires
        !req.is_main_frame,
    ensures
        navigation_matches(req, login, register, d) == (d is Allow),
{
}

/// A main-frame web page whose URL holds "/id/login" is replaced by the backend's
/// login page, and one holding "/id/register" (but not "/id/login") by its
/// register page; an http or https page holding neither loads as it is.
pub proof fn lemma_login_and_register_replaced(
    req: NavigationRequest,
    login: Seq<char>,
    register: Seq<char>,
    d: NavigationDecision,
)
    requires
        req.is_main_frame,
        req.has_url,
        req.scheme matches Some(s) && (s@ == "http"@ || s@ == "https"@),
        req.absolute_url is Some,
        navigation_matches(req, login, register, d),
    ensures
        has_substring(req.absolute_url->0@, "/id/login"@) ==> (d matches NavigationDecision::LoadInstead(t) && t@ == login),
        !has_substring(req.absolute_url->0@, "/id/login"@) && has_substring(req.absolute_url->0@, "/id/register"@)
            ==> (d matches NavigationDecision::LoadInstead(t) && t@ == register),
        !has_substring(req.absolute_url->0@, "/id/login"@) && !has_substring(req.absolute_url->0@, "/id/register"@)
            ==> d is Allow,
{
    reveal_strlit("http");
    reveal_strlit("https");
    reveal_strlit("com.epicgames.fortnite");
    let s = req.scheme->0@;
    if s == game_scheme() {
        assert(s.len() != "com.epicgames.fortnite"@.len());
    }
}

/// Main-frame navigations with no URL, or to the game's own login callback
/// ("com.epicgames.fortnite" with host "authorize"), go to the delegate; those to
/// any other scheme than "http" and "https" leave the app, and http and https
/// pages never do.
pub proof fn lemma_non_web_navigation(
    req: NavigationRequest,
    login: Seq<char>,
    register: Seq<char>,
    d: NavigationDecision,
)
    requires
        req.is_main_frame,
        navigation_matches(req, login, register, d),
    ensures
        !req.has_url ==> d is CallDelegate,
        req.has_url && req.scheme is Some && req.scheme->0@ == "com.epicgames.fortnite"@
            && req.host is Some && req.host->0@ == "authorize"@ ==> d is CallDelegate,
        req.has_url && req.scheme is Some && !(req.scheme->0@ == "com.epicgames.fortnite"@
            && req.host is Some && req.host->0@ == "authorize"@) && req.scheme->0@ != "http"@
            && req.scheme->0@ != "https"@ ==> d is OpenExternally,
        req.scheme is Some && (req.scheme->0@ == "http"@ || req.scheme->0@ == "https"@) ==> !(
        d is OpenExternally),
{
    reveal_strlit("http");
    reveal_strlit("https");
    reveal_strlit("com.epicgames.fortnite");
    if req.scheme is Some && (req.scheme->0@ == "http"@ || req.scheme->0@ == "https"@) {
        assert(req.scheme->0@.len() != "com.epicgames.fortnite"@.len());
    }
}

} // verus!
