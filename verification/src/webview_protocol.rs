//! Custom URL schemes of webviews: which schemes this native module declares
//! (with their option bits), the phases of the process-global Web engine
//! start (sealed, flushed, initialized), the handlers declared per webview
//! (`D`), and which handlers are being or have been installed on which
//! ArkWeb controller tag, so that each is installed once per controller.

use vstd::prelude::*;

use crate::bridge::BridgeError;
use crate::keyed::{lemma_text_lt_asymmetric, lemma_text_lt_irreflexive, text_eq, text_lt, TextMap};
use crate::nested::{entries_of, members, GroupedMap, Groups};
use crate::text::{blank, is_blank};
use crate::webview_controller::{current_tag, tag_views};

verus! {

/// An ASCII letter.
pub open spec fn is_ascii_alpha(c: char) -> bool {
    ('a' <= c && c <= 'z') || ('A' <= c && c <= 'Z')
}

/// A character allowed after the first one of a scheme.
pub open spec fn is_scheme_char(c: char) -> bool {
    is_ascii_alpha(c) || ('0' <= c && c <= '9') || c == '+' || c == '-' || c == '.'
}

/// A scheme name: an ASCII letter, then ASCII letters, digits, `+`, `-` or `.`.
pub open spec fn valid_scheme(s: Seq<char>) -> bool {
    s.len() > 0 && is_ascii_alpha(s[0]) && forall|i: int| 1 <= i < s.len() ==> is_scheme_char(#[trigger] s[i])
}

/// Checks a scheme name.
pub fn validate_scheme(scheme: &str) -> (r: Result<(), BridgeError>)
    ensures
        r is Ok <==> valid_scheme(scheme@),
        scheme@.len() == 0 ==> (r matches Err(e) && e.reason@ == "WebView scheme must not be empty"@),
        scheme@.len() > 0 && !valid_scheme(scheme@) ==> (r matches Err(e) && e.reason@
            == "WebView scheme must start with a letter and contain only ASCII letters, digits, '+', '-' or '.'"@),
{
    let cs = crate::text::chars_of(scheme);
    if cs.len() == 0 {
        return Err(BridgeError::from_reason("WebView scheme must not be empty"));
    }
    let first = cs[0];
    let mut ok = ('a' <= first && first <= 'z') || ('A' <= first && first <= 'Z');
    let mut i: usize = 1;
    while i < cs.len()
        invariant
            cs@ == scheme@,
            cs@.len() > 0,
            1 <= i <= cs@.len(),
            ok <==> (is_ascii_alpha(cs@[0]) && forall|j: int| 1 <= j < i ==> is_scheme_char(#[trigger] cs@[j])),
        decreases cs.len() - i,
    {
        let c = cs[i];
        let allowed = ('a' <= c && c <= 'z') || ('A' <= c && c <= 'Z') || ('0' <= c && c <= '9') || c == '+'
            || c == '-' || c == '.';
        if !allowed {
            ok = false;
        }
        i += 1;
    }
    if !ok {
        return Err(BridgeError::from_reason(
            "WebView scheme must start with a letter and contain only ASCII letters, digits, '+', '-' or '.'",
        ));
    }
    Ok(())
}

/// A character of the URI scheme grammar after the first: an ASCII letter
/// or digit, `+`, `-` or `.`.
pub open spec fn uri_scheme_tail_char(c: char) -> bool {
    ('a' <= c && c <= 'z') || ('A' <= c && c <= 'Z') || ('0' <= c && c <= '9') || c == '+' || c == '-'
        || c == '.'
}

/// A scheme is accepted exactly when it follows the URI scheme grammar: an
/// ASCII letter, then any number of ASCII letters, digits, `+`, `-` and
/// `.`. So a valid scheme stays valid when such a character is appended, and
/// no other character can be appended to it.
pub proof fn law_scheme_follows_uri_grammar(s: Seq<char>, c: char)
    ensures
        valid_scheme(s) <==> (s.len() > 0 && (('a' <= s[0] && s[0] <= 'z') || ('A' <= s[0] && s[0] <= 'Z'))
            && forall|i: int| 1 <= i < s.len() ==> uri_scheme_tail_char(#[trigger] s[i])),
        valid_scheme(s) ==> (valid_scheme(s.push(c)) <==> uri_scheme_tail_char(c)),
{
    if valid_scheme(s) {
        let t = s.push(c);
        if uri_scheme_tail_char(c) {
            assert forall|i: int| 1 <= i < t.len() implies is_scheme_char(#[trigger] t[i]) by {
                if i < s.len() {
                    assert(t[i] == s[i]);
                }
            }
        }
        if valid_scheme(t) {
            assert(is_scheme_char(t[t.len() - 1]));
        }
    }
    assert((forall|i: int| 1 <= i < s.len() ==> uri_scheme_tail_char(#[trigger] s[i])) <==> (forall|i: int|
        1 <= i < s.len() ==> is_scheme_char(#[trigger] s[i])));
}

/// Checks a webview id (or a controller tag) used for custom protocols:
/// nonblank and free of NUL characters.
pub fn validate_webview_id(webview_id: &str) -> (r: Result<(), BridgeError>)
    ensures
        is_blank(webview_id@) ==> (r matches Err(e) && e.reason@ == "WebView custom protocol id must not be empty"@),
        !is_blank(webview_id@) && webview_id@.contains('\0') ==> (r matches Err(e) && e.reason@
            == "WebView custom protocol id must not contain a NUL byte"@),
        !is_blank(webview_id@) && !webview_id@.contains('\0') ==> r is Ok,
{
    if blank(webview_id) {
        return Err(BridgeError::from_reason("WebView custom protocol id must not be empty"));
    }
    let cs = crate::text::chars_of(webview_id);
    let mut i: usize = 0;
    while i < cs.len()
        invariant
            cs@ == webview_id@,
            i <= cs@.len(),
            forall|j: int| 0 <= j < i ==> cs@[j] != '\0',
        decreases cs.len() - i,
    {
        if cs[i] == '\0' {
            assert(webview_id@[i as int] == '\0');
            return Err(BridgeError::from_reason("WebView custom protocol id must not contain a NUL byte"));
        }
        i += 1;
    }
    Ok(())
}

/// The reason a scheme is registered a second time with other options.
pub open spec fn options_conflict_reason(scheme: Seq<char>) -> Seq<char> {
    "WebView scheme '"@ + scheme + "' was already registered with different options"@
}

/// The reason a new scheme arrives after the engine initialized.
pub open spec fn after_engine_reason(scheme: Seq<char>) -> Seq<char> {
    "WebView scheme '"@ + scheme + "' must be registered before Web engine initialization"@
}

/// The reason a new scheme arrives after the engine start began.
pub open spec fn after_seal_reason(scheme: Seq<char>) -> Seq<char> {
    "WebView scheme '"@ + scheme
        + "' must be registered before WebviewBridgePlugin begins Web engine initialization"@
}

/// The reason a declared scheme is missing from the process registration.
pub open spec fn unregistered_scheme_reason(scheme: Seq<char>) -> Seq<char> {
    "WebView scheme '"@ + scheme
        + "' from this native module was not registered with matching options before the process-global engine initialized"@
}

/// The reason a bound scheme was never declared.
pub open spec fn undeclared_scheme_reason(scheme: Seq<char>) -> Seq<char> {
    "WebView scheme '"@ + scheme + "' was not declared with WebviewProtocol::register"@
}

fn scheme_reason(prefix: &str, scheme: &str, suffix: &str) -> (r: BridgeError)
    ensures
        r.reason@ == prefix@ + scheme@ + suffix@,
{
    let mut reason = String::from_str(prefix);
    reason.append(scheme);
    reason.append(suffix);
    BridgeError { reason }
}

/// What registering `scheme` with `bits` needs: `Ok(true)` for a new scheme
/// before the engine start, `Ok(false)` for a repeat with the same options,
/// else the error.
pub open spec fn registration_needed(
    schemes: Map<Seq<char>, u32>,
    sealed: bool,
    flushed: bool,
    engine_initialized: bool,
    scheme: Seq<char>,
    bits: u32,
) -> Result<bool, Seq<char>> {
    if schemes.contains_key(scheme) {
        if schemes[scheme] != bits {
            Err(options_conflict_reason(scheme))
        } else {
            Ok(false)
        }
    } else if engine_initialized {
        Err(after_engine_reason(scheme))
    } else if sealed || flushed {
        Err(after_seal_reason(scheme))
    } else {
        Ok(true)
    }
}

pub open spec fn bool_result(r: Result<bool, BridgeError>) -> Result<bool, Seq<char>> {
    match r {
        Ok(b) => Ok(b),
        Err(e) => Err(e.reason@),
    }
}

/// The scheme registry and handler bookkeeping of the native module.
pub struct ProtocolState<D> {
    schemes: TextMap<u32>,
    sealed: bool,
    flushed: bool,
    engine_initialized: bool,
    declarations: GroupedMap<D>,
    attached: TextMap<String>,
    installing: Groups,
    installed: Groups,
}

impl<D> ProtocolState<D> {
    pub closed spec fn schemes(&self) -> Map<Seq<char>, u32> {
        self.schemes@
    }

    pub closed spec fn sealed(&self) -> bool {
        self.sealed
    }

    pub closed spec fn flushed(&self) -> bool {
        self.flushed
    }

    pub closed spec fn engine_initialized(&self) -> bool {
        self.engine_initialized
    }

    /// The handlers declared per webview, by scheme.
    pub closed spec fn declared(&self) -> Map<Seq<char>, Map<Seq<char>, D>> {
        self.declarations@
    }

    pub closed spec fn attached(&self) -> Map<Seq<char>, Seq<char>> {
        tag_views(self.attached@)
    }

    /// Schemes whose installation on a controller tag is under way.
    pub closed spec fn installing(&self) -> Map<Seq<char>, Set<Seq<char>>> {
        self.installing@
    }

    /// Schemes installed on a controller tag.
    pub closed spec fn installed(&self) -> Map<Seq<char>, Set<Seq<char>>> {
        self.installed@
    }

    pub closed spec fn wf(&self) -> bool {
        &&& self.schemes.wf()
        &&& self.declarations.wf()
        &&& self.attached.wf()
        &&& self.installing.wf()
        &&& self.installed.wf()
        &&& self.engine_initialized ==> self.sealed && self.flushed
    }

    pub fn new() -> (r: Self)
        ensures
            r.wf(),
            r.schemes() == Map::<Seq<char>, u32>::empty(),
            !r.sealed() && !r.flushed() && !r.engine_initialized(),
            r.declared() == Map::<Seq<char>, Map<Seq<char>, D>>::empty(),
            r.attached() == Map::<Seq<char>, Seq<char>>::empty(),
            r.installing() == Map::<Seq<char>, Set<Seq<char>>>::empty(),
            r.installed() == Map::<Seq<char>, Set<Seq<char>>>::empty(),
    {
        let r = ProtocolState {
            schemes: TextMap::new(),
            sealed: false,
            flushed: false,
            engine_initialized: false,
            declarations: GroupedMap::new(),
            attached: TextMap::new(),
            installing: Groups::new(),
            installed: Groups::new(),
        };
        assert(r.attached() =~= Map::<Seq<char>, Seq<char>>::empty());
        r
    }

    /// What registering `scheme` with `bits` needs (see `registration_needed`).
    pub fn scheme_registration_needed(&self, scheme: &str, options_bits: u32) -> (r: Result<bool, BridgeError>)
        requires
            self.wf(),
        ensures
            bool_result(r) == registration_needed(
                self.schemes(),
                self.sealed(),
                self.flushed(),
                self.engine_initialized(),
                scheme@,
                options_bits,
            ),
    {
        match self.schemes.get(scheme) {
            Some(existing) => {
                if *existing != options_bits {
                    Err(scheme_reason("WebView scheme '", scheme, "' was already registered with different options"))
                } else {
                    Ok(false)
                }
            },
            None => {
                if self.engine_initialized {
                    Err(scheme_reason("WebView scheme '", scheme, "' must be registered before Web engine initialization"))
                } else if self.sealed || self.flushed {
                    Err(scheme_reason(
                        "WebView scheme '",
                        scheme,
                        "' must be registered before WebviewBridgePlugin begins Web engine initialization",
                    ))
                } else {
                    Ok(true)
                }
            },
        }
    }

    /// Declares a scheme with its option bits. `Ok(true)` means the scheme is
    /// new and must be added to ArkWeb; a repeat with the same options is
    /// `Ok(false)` and changes nothing.
    pub fn register(&mut self, scheme: &str, options_bits: u32) -> (r: Result<bool, BridgeError>)
        requires
            old(self).wf(),
        ensures
            final(self).wf(),
            !valid_scheme(scheme@) ==> r is Err && final(self).schemes() == old(self).schemes(),
            valid_scheme(scheme@) ==> bool_result(r) == registration_needed(
                old(self).schemes(),
                old(self).sealed(),
                old(self).flushed(),
                old(self).engine_initialized(),
                scheme@,
                options_bits,
            ),
            r matches Ok(true) ==> final(self).schemes() == old(self).schemes().insert(scheme@, options_bits),
            !(r matches Ok(true)) ==> final(self).schemes() == old(self).schemes(),
            final(self).sealed() == old(self).sealed(),
            final(self).flushed() == old(self).flushed(),
            final(self).engine_initialized() == old(self).engine_initialized(),
            final(self).declared() == old(self).declared(),
            final(self).attached() == old(self).attached(),
            final(self).installing() == old(self).installing(),
            final(self).installed() == old(self).installed(),
    {
        match validate_scheme(scheme) {
            Err(e) => return Err(e),
            Ok(()) => {},
        }
        match self.scheme_registration_needed(scheme, options_bits) {
            Err(e) => Err(e),
            Ok(false) => Ok(false),
            Ok(true) => {
                let _ = self.schemes.insert(scheme.to_owned(), options_bits);
                Ok(true)
            },
        }
    }

    /// Seals the declared schemes: no new scheme may be declared afterwards.
    pub fn seal_before_engine_init(&mut self)
        requires
            old(self).wf(),
        ensures
            final(self).wf(),
            final(self).sealed(),
            final(self).schemes() == old(self).schemes(),
            final(self).flushed() == old(self).flushed(),
            final(self).engine_initialized() == old(self).engine_initialized(),
    {
        self.sealed = true;
    }

    /// Marks the declared schemes as handed to the platform. `Ok(true)` means
    /// the platform registration must run now; after an earlier flush or once
    /// the engine initialized nothing is left to do (`Ok(false)`). The schemes
    /// must have been sealed first.
    pub fn flush_before_engine_init(&mut self) -> (r: Result<bool, BridgeError>)
        requires
            old(self).wf(),
        ensures
            final(self).wf(),
            old(self).engine_initialized() || old(self).flushed() ==> r == Ok::<bool, BridgeError>(false)
                && final(self).flushed() == old(self).flushed(),
            !old(self).engine_initialized() && !old(self).flushed() && !old(self).sealed() ==> (r matches Err(e)
                && e.reason@ == "WebView scheme declarations must be sealed before platform registration"@)
                && !final(self).flushed(),
            !old(self).engine_initialized() && !old(self).flushed() && old(self).sealed() ==> r == Ok::<
                bool,
                BridgeError,
            >(true) && final(self).flushed(),
            final(self).schemes() == old(self).schemes(),
            final(self).sealed() == old(self).sealed(),
            final(self).engine_initialized() == old(self).engine_initialized(),
    {
        if self.engine_initialized || self.flushed {
            return Ok(false);
        }
        if !self.sealed {
            return Err(BridgeError::from_reason(
                "WebView scheme declarations must be sealed before platform registration",
            ));
        }
        self.flushed = true;
        Ok(true)
    }

    /// Checks that every scheme this module declared was registered with the
    /// process under the same options; the first missing scheme (in name
    /// order) is reported.
    pub fn ensure_schemes_registered(&self, registered: &Vec<(String, u32)>) -> (r: Result<(), BridgeError>)
        requires
            self.wf(),
        ensures
            r is Ok <==> forall|s: Seq<char>| #[trigger] self.schemes().contains_key(s) ==> pair_listed(
                registered@,
                s,
                self.schemes()[s],
            ),
            r matches Err(e) ==> exists|s: Seq<char>| #[trigger] self.schemes().contains_key(s) && !pair_listed(
                registered@,
                s,
                self.schemes()[s],
            ) && e.reason@ == unregistered_scheme_reason(s) && forall|t: Seq<char>| #[trigger] self.schemes().contains_key(t)
                && text_lt(t, s) ==> pair_listed(registered@, t, self.schemes()[t]),
    {
        let keys = self.schemes.keys();
        let mut i: usize = 0;
        while i < keys.len()
            invariant
                self.wf(),
                i <= keys@.len(),
                forall|k: Seq<char>| self.schemes().contains_key(k) <==> keys@.map_values(|s: String| s@).contains(k),
                keys@.map_values(|s: String| s@) == self.schemes.key_seq(),
                forall|j: int| 0 <= j < i ==> #[trigger] pair_listed(
                    registered@,
                    keys@[j]@,
                    self.schemes()[keys@[j]@],
                ),
            decreases keys.len() - i,
        {
            let scheme = keys[i].as_str();
            assert(keys@.map_values(|s: String| s@)[i as int] == keys@[i as int]@);
            assert(self.schemes().contains_key(keys@[i as int]@));
            let options = match self.schemes.get(scheme) {
                Some(o) => *o,
                None => 0,
            };
            let mut found = false;
            let mut j: usize = 0;
            while j < registered.len()
                invariant
                    j <= registered@.len(),
                    found <==> exists|k: int| 0 <= k < j && #[trigger] registered@[k].0@ == scheme@
                        && registered@[k].1 == options,
                decreases registered.len() - j,
            {
                if text_eq(registered[j].0.as_str(), scheme) && registered[j].1 == options {
                    found = true;
                }
                j += 1;
            }
            if !found {
                proof {
                    self.schemes.lemma_keys_ordered();
                    let s0 = keys@[i as int]@;
                    assert forall|t: Seq<char>| #[trigger] self.schemes().contains_key(t) && text_lt(t, s0) implies pair_listed(
                        registered@,
                        t,
                        self.schemes()[t],
                    ) by {
                        let m = keys@.map_values(|x: String| x@);
                        assert(m.contains(t));
                        let j = choose|j: int| 0 <= j < m.len() && m[j] == t;
                        assert(m[j] == keys@[j]@);
                        assert(m[i as int] == s0);
                        if j == i {
                            lemma_text_lt_irreflexive(t);
                        } else if j > i {
                            assert(text_lt(m[i as int], m[j]));
                            lemma_text_lt_asymmetric(t, s0);
                        }
                    }
                }
                return Err(scheme_reason(
                    "WebView scheme '",
                    scheme,
                    "' from this native module was not registered with matching options before the process-global engine initialized",
                ));
            }
            i += 1;
        }
        proof {
            assert forall|s: Seq<char>| #[trigger] self.schemes().contains_key(s) implies pair_listed(
                registered@,
                s,
                self.schemes()[s],
            ) by {
                let m = keys@.map_values(|t: String| t@);
                assert(m.contains(s));
                let j = choose|j: int| 0 <= j < m.len() && m[j] == s;
                assert(m[j] == keys@[j]@);
            }
        }
        Ok(())
    }

    /// Marks the Web engine initialized (which also seals and flushes), once
    /// every declared scheme is known to be registered with the process.
    pub fn mark_engine_initialized(&mut self, registered: &Vec<(String, u32)>) -> (r: Result<(), BridgeError>)
        requires
            old(self).wf(),
        ensures
            final(self).wf(),
            r is Ok <==> forall|s: Seq<char>| #[trigger] old(self).schemes().contains_key(s) ==> pair_listed(
                registered@,
                s,
                old(self).schemes()[s],
            ),
            r is Ok ==> final(self).engine_initialized() && final(self).sealed() && final(self).flushed(),
            r is Err ==> final(self).engine_initialized() == old(self).engine_initialized() && final(self).sealed()
                == old(self).sealed() && final(self).flushed() == old(self).flushed(),
            final(self).schemes() == old(self).schemes(),
    {
        match self.ensure_schemes_registered(registered) {
            Err(e) => return Err(e),
            Ok(()) => {},
        }
        if self.engine_initialized {
            return Ok(());
        }
        self.sealed = true;
        self.flushed = true;
        self.engine_initialized = true;
        Ok(())
    }

    /// The declared schemes with their options, in name order.
    pub fn declared_schemes(&self) -> (r: Vec<(String, u32)>)
        requires
            self.wf(),
        ensures
            forall|i: int| 0 <= i < r@.len() ==> #[trigger] self.schemes().contains_key(r@[i].0@) && self.schemes()[r@[i].0@]
                == r@[i].1,
            forall|s: Seq<char>| #[trigger] self.schemes().contains_key(s) ==> exists|i: int| 0 <= i < r@.len() && #[trigger] r@[i].0@ == s,
            forall|i: int, j: int| 0 <= i < j < r@.len() ==> text_lt(#[trigger] r@[i].0@, #[trigger] r@[j].0@),
    {
        let keys = self.schemes.keys();
        proof {
            self.schemes.lemma_keys_ordered();
            let m = keys@.map_values(|x: String| x@);
            assert forall|a: int, b: int| 0 <= a < b < keys@.len() implies text_lt(#[trigger] keys@[a]@, #[trigger] keys@[b]@) by {
                assert(m[a] == keys@[a]@);
                assert(m[b] == keys@[b]@);
            }
        }
        let mut out: Vec<(String, u32)> = Vec::new();
        let mut i: usize = 0;
        while i < keys.len()
            invariant
                self.wf(),
                i <= keys@.len(),
                out@.len() == i,
                forall|k: Seq<char>| self.schemes().contains_key(k) <==> keys@.map_values(|s: String| s@).contains(k),
                forall|j: int| 0 <= j < i ==> #[trigger] out@[j].0@ == keys@[j]@ && self.schemes().contains_key(out@[j].0@)
                    && self.schemes()[out@[j].0@] == out@[j].1,
                keys@.map_values(|s: String| s@) == self.schemes.key_seq(),
                forall|a: int, b: int| 0 <= a < b < keys@.len() ==> text_lt(#[trigger] keys@[a]@, #[trigger] keys@[b]@),
            decreases keys.len() - i,
        {
            assert(keys@.map_values(|s: String| s@)[i as int] == keys@[i as int]@);
            let options = match self.schemes.get(keys[i].as_str()) {
                Some(o) => *o,
                None => 0,
            };
            let k = keys[i].clone();
            out.push((k, options));
            i += 1;
        }
        proof {
            assert forall|s: Seq<char>| #[trigger] self.schemes().contains_key(s) implies exists|i: int|
                0 <= i < out@.len() && #[trigger] out@[i].0@ == s by {
                let m = keys@.map_values(|t: String| t@);
                assert(m.contains(s));
                let j = choose|j: int| 0 <= j < m.len() && m[j] == s;
                assert(m[j] == keys@[j]@);
                assert(out@[j].0@ == s);
            }
        }
        out
    }

    /// Checks that a scheme was declared before a handler is bound to it.
    pub fn require_declared(&self, scheme: &str) -> (r: Result<(), BridgeError>)
        requires
            self.wf(),
        ensures
            r is Ok <==> valid_scheme(scheme@) && self.schemes().contains_key(scheme@),
            valid_scheme(scheme@) && !self.schemes().contains_key(scheme@) ==> (r matches Err(e) && e.reason@
                == undeclared_scheme_reason(scheme@)),
    {
        match validate_scheme(scheme) {
            Err(e) => return Err(e),
            Ok(()) => {},
        }
        if !self.schemes.contains_key(scheme) {
            return Err(scheme_reason("WebView scheme '", scheme, "' was not declared with WebviewProtocol::register"));
        }
        Ok(())
    }

    /// Reserves the installation of `scheme` on the controller `native_tag`:
    /// granted (and recorded as under way) only when it is neither installed
    /// nor already under way there.
    pub fn reserve_installation(&mut self, native_tag: &str, scheme: &str) -> (r: bool)
        requires
            old(self).wf(),
        ensures
            final(self).wf(),
            r == !(members(old(self).installed(), native_tag@).contains(scheme@) || members(
                old(self).installing(),
                native_tag@,
            ).contains(scheme@)),
            r ==> final(self).installing() == old(self).installing().insert(
                native_tag@,
                members(old(self).installing(), native_tag@).insert(scheme@),
            ),
            !r ==> final(self).installing() == old(self).installing(),
            final(self).installed() == old(self).installed(),
            final(self).schemes() == old(self).schemes(),
            final(self).declared() == old(self).declared(),
            final(self).attached() == old(self).attached(),
            final(self).sealed() == old(self).sealed(),
            final(self).flushed() == old(self).flushed(),
            final(self).engine_initialized() == old(self).engine_initialized(),
    {
        if self.installed.contains(native_tag, scheme) || self.installing.contains(native_tag, scheme) {
            return false;
        }
        self.installing.insert(native_tag, scheme)
    }

    /// Records the end of an installation: it is no longer under way, and a
    /// successful one counts as installed while the same controller is still
    /// attached to the webview.
    pub fn finish_installation(&mut self, webview_id: &str, native_tag: &str, scheme: &str, installed: bool)
        requires
            old(self).wf(),
        ensures
            final(self).wf(),
            !members(final(self).installing(), native_tag@).contains(scheme@),
            installed && current_tag(old(self).attached(), webview_id@) == Some(native_tag@) ==> final(self).installed()
                == old(self).installed().insert(native_tag@, members(old(self).installed(), native_tag@).insert(scheme@)),
            !(installed && current_tag(old(self).attached(), webview_id@) == Some(native_tag@)) ==> final(self).installed()
                == old(self).installed(),
            final(self).schemes() == old(self).schemes(),
            final(self).declared() == old(self).declared(),
            final(self).attached() == old(self).attached(),
    {
        self.installing.remove_item(native_tag, scheme);
        let attached_here = match self.attached.get(webview_id) {
            Some(t) => text_eq(t.as_str(), native_tag),
            None => false,
        };
        if installed && attached_here {
            let _ = self.installed.insert(native_tag, scheme);
        }
    }

    /// Binds a handler for a declared scheme to a webview (the first binding
    /// per webview and scheme wins). Returns the controller tag to install
    /// the handler on now: the webview's attached controller, when the
    /// binding is new and its installation could be reserved.
    pub fn bind(&mut self, webview_id: &str, scheme: &str, declaration: D) -> (r: Result<Option<String>, BridgeError>)
        requires
            old(self).wf(),
        ensures
            final(self).wf(),
            r is Err ==> final(self).declared() == old(self).declared(),
            r is Ok <==> (!is_blank(webview_id@) && !webview_id@.contains('\0') && valid_scheme(scheme@)
                && old(self).schemes().contains_key(scheme@)),
            !is_blank(webview_id@) && !webview_id@.contains('\0') && valid_scheme(scheme@) && !old(
                self,
            ).schemes().contains_key(scheme@) ==> (r matches Err(e) && e.reason@ == undeclared_scheme_reason(scheme@)),
            r is Ok ==> final(self).declared() == (if entries_of(old(self).declared(), webview_id@).contains_key(scheme@) {
                old(self).declared()
            } else {
                old(self).declared().insert(webview_id@, entries_of(old(self).declared(), webview_id@).insert(scheme@, declaration))
            }),
            r matches Ok(Some(tag)) ==> current_tag(old(self).attached(), webview_id@) == Some(tag@)
                && !entries_of(old(self).declared(), webview_id@).contains_key(scheme@)
                && members(final(self).installing(), tag@).contains(scheme@),
            r is Ok ==> ((r matches Ok(Some(_))) <==> (!entries_of(old(self).declared(), webview_id@).contains_key(scheme@)
                && current_tag(old(self).attached(), webview_id@) is Some && !members(
                old(self).installed(),
                current_tag(old(self).attached(), webview_id@)->0,
            ).contains(scheme@) && !members(
                old(self).installing(),
                current_tag(old(self).attached(), webview_id@)->0,
            ).contains(scheme@))),
            final(self).schemes() == old(self).schemes(),
            final(self).attached() == old(self).attached(),
            final(self).installed() == old(self).installed(),
    {
        match validate_webview_id(webview_id) {
            Err(e) => return Err(e),
            Ok(()) => {},
        }
        match self.require_declared(scheme) {
            Err(e) => return Err(e),
            Ok(()) => {},
        }
        let is_new = self.declarations.insert_new(webview_id, scheme, declaration);
        let tag = match self.attached.get(webview_id) {
            Some(t) => Some(t.clone()),
            None => None,
        };
        match tag {
            Some(t) => {
                if is_new && self.reserve_installation(t.as_str(), scheme) {
                    Ok(Some(t))
                } else {
                    Ok(None)
                }
            },
            None => Ok(None),
        }
    }

    /// The handler bound to `scheme` on a webview.
    pub fn declaration(&self, webview_id: &str, scheme: &str) -> (r: Option<&D>)
        requires
            self.wf(),
        ensures
            match r {
                Some(d) => entries_of(self.declared(), webview_id@).contains_key(scheme@) && *d == entries_of(
                    self.declared(),
                    webview_id@,
                )[scheme@],
                None => !entries_of(self.declared(), webview_id@).contains_key(scheme@),
            },
    {
        self.declarations.get(webview_id, scheme)
    }

    /// Records that a controller attached to a webview (only after the engine
    /// initialized). A replaced controller's installation records are
    /// dropped. Returns the schemes whose handlers must be installed on the
    /// new controller: those bound to the webview whose installation could be
    /// reserved.
    pub fn on_controller_attached(&mut self, webview_id: &str, native_tag: &str) -> (r: Result<Vec<String>, BridgeError>)
        requires
            old(self).wf(),
        ensures
            final(self).wf(),
            r is Ok <==> (!is_blank(webview_id@) && !webview_id@.contains('\0') && !is_blank(native_tag@)
                && !native_tag@.contains('\0') && old(self).engine_initialized()),
            !is_blank(webview_id@) && !webview_id@.contains('\0') && !is_blank(native_tag@)
                && !native_tag@.contains('\0') && !old(self).engine_initialized() ==> (r matches Err(e) && e.reason@
                == "WebView custom protocol handler cannot attach before Web engine initialization"@),
            r is Err ==> final(self).attached() == old(self).attached() && final(self).installing()
                == old(self).installing() && final(self).installed() == old(self).installed(),
            r is Ok ==> final(self).attached() == old(self).attached().insert(webview_id@, native_tag@),
            r matches Ok(v) ==> forall|i: int|
                #![trigger v@[i]]
                0 <= i < v@.len() ==> entries_of(final(self).declared(), webview_id@).contains_key(v@[i]@)
                    && members(final(self).installing(), native_tag@).contains(v@[i]@),
            r matches Ok(v) ==> forall|k: Seq<char>| #[trigger] entries_of(old(self).declared(), webview_id@).contains_key(k)
                ==> v@.map_values(|s: String| s@).contains(k) || members(old(self).installed(), native_tag@).contains(k)
                || members(old(self).installing(), native_tag@).contains(k),
            final(self).declared() == old(self).declared(),
            final(self).schemes() == old(self).schemes(),
    {
        match validate_webview_id(webview_id) {
            Err(e) => return Err(e),
            Ok(()) => {},
        }
        match validate_webview_id(native_tag) {
            Err(e) => return Err(e),
            Ok(()) => {},
        }
        if !self.engine_initialized {
            return Err(BridgeError::from_reason(
                "WebView custom protocol handler cannot attach before Web engine initialization",
            ));
        }
        let previous = self.attached.insert(webview_id.to_owned(), native_tag.to_owned());
        assert(self.attached() =~= old(self).attached().insert(webview_id@, native_tag@));
        match previous {
            Some(p) => {
                if !text_eq(p.as_str(), native_tag) {
                    self.installing.remove_group(p.as_str());
                    self.installed.remove_group(p.as_str());
                }
            },
            None => {},
        }
        assert(members(self.installed(), native_tag@) == members(old(self).installed(), native_tag@));
        assert(members(self.installing(), native_tag@) == members(old(self).installing(), native_tag@));
        let declared = self.declarations.keys_of(webview_id);
        let mut to_install: Vec<String> = Vec::new();
        let mut i: usize = 0;
        while i < declared.len()
            invariant
                self.wf(),
                i <= declared@.len(),
                self.declared() == old(self).declared(),
                self.schemes() == old(self).schemes(),
                self.attached() == old(self).attached().insert(webview_id@, native_tag@),
                forall|k: Seq<char>| #[trigger] entries_of(self.declared(), webview_id@).contains_key(k)
                    <==> declared@.map_values(|s: String| s@).contains(k),
                forall|j: int|
                    #![trigger to_install@[j]]
                    0 <= j < to_install@.len() ==> entries_of(self.declared(), webview_id@).contains_key(
                        to_install@[j]@,
                    ) && members(self.installing(), native_tag@).contains(to_install@[j]@),
                members(self.installed(), native_tag@) == members(old(self).installed(), native_tag@),
                forall|k: Seq<char>| #[trigger] members(self.installing(), native_tag@).contains(k) ==> members(
                    old(self).installing(),
                    native_tag@,
                ).contains(k) || to_install@.map_values(|s: String| s@).contains(k),
                forall|j: int|
                    #![trigger declared@[j]]
                    0 <= j < i ==> to_install@.map_values(|s: String| s@).contains(declared@[j]@) || members(
                        old(self).installed(),
                        native_tag@,
                    ).contains(declared@[j]@) || members(old(self).installing(), native_tag@).contains(declared@[j]@),
            decreases declared.len() - i,
        {
            let scheme = declared[i].as_str();
            assert(declared@.map_values(|s: String| s@)[i as int] == declared@[i as int]@);
            assert(declared@.map_values(|s: String| s@).contains(declared@[i as int]@));
            let ghost before = to_install@;
            let ghost inst0 = self.installing();
            assert(forall|j: int|
                #![trigger before[j]]
                0 <= j < before.len() ==> members(inst0, native_tag@).contains(before[j]@));
            let ghost tv0 = before.map_values(|s: String| s@);
            if self.reserve_installation(native_tag, scheme) {
                let item = declared[i].clone();
                assert(item@ == scheme@);
                to_install.push(item);
                let ghost tv1 = to_install@.map_values(|s: String| s@);
                assert(tv1 =~= tv0.push(scheme@));
                assert forall|j: int|
                    #![trigger to_install@[j]]
                    0 <= j < to_install@.len() implies entries_of(self.declared(), webview_id@).contains_key(
                        to_install@[j]@,
                    ) && members(self.installing(), native_tag@).contains(to_install@[j]@) by {
                    if j < before.len() {
                        assert(to_install@[j] == before[j]);
                        assert(members(inst0, native_tag@).contains(before[j]@));
                    }
                }
                assert forall|k: Seq<char>| #[trigger] members(self.installing(), native_tag@).contains(k) implies members(
                    old(self).installing(),
                    native_tag@,
                ).contains(k) || tv1.contains(k) by {
                    if k == scheme@ {
                        assert(tv1[tv1.len() - 1] == k);
                    } else {
                        assert(members(inst0, native_tag@).contains(k));
                        if tv0.contains(k) {
                            let m = choose|m: int| 0 <= m < tv0.len() && tv0[m] == k;
                            assert(tv1[m] == k);
                        }
                    }
                }
                assert forall|j: int|
                    #![trigger declared@[j]]
                    0 <= j < i + 1 implies tv1.contains(declared@[j]@) || members(
                        old(self).installed(),
                        native_tag@,
                    ).contains(declared@[j]@) || members(old(self).installing(), native_tag@).contains(declared@[j]@) by {
                    if j == i {
                        assert(tv1[tv1.len() - 1] == declared@[j]@);
                    } else if tv0.contains(declared@[j]@) {
                        let m = choose|m: int| 0 <= m < tv0.len() && tv0[m] == declared@[j]@;
                        assert(tv1[m] == declared@[j]@);
                    }
                }
            } else {
                assert(self.installing() == inst0);
                assert(to_install@.map_values(|s: String| s@) == tv0);
                assert(members(inst0, native_tag@).contains(scheme@) || members(self.installed(), native_tag@).contains(
                    scheme@,
                ));
            }
            i += 1;
        }
        proof {
            assert forall|k: Seq<char>| #[trigger] entries_of(old(self).declared(), webview_id@).contains_key(k) implies to_install@.map_values(
                |s: String| s@,
            ).contains(k) || members(old(self).installed(), native_tag@).contains(k) || members(
                old(self).installing(),
                native_tag@,
            ).contains(k) by {
                let dv = declared@.map_values(|s: String| s@);
                assert(dv.contains(k));
                let j = choose|j: int| 0 <= j < dv.len() && dv[j] == k;
                assert(dv[j] == declared@[j]@);
            }
        }
        Ok(to_install)
    }

    /// Forgets a webview's controller and its installation records, but only
    /// when `native_tag` is the current one.
    pub fn on_controller_removed(&mut self, webview_id: &str, native_tag: &str)
        requires
            old(self).wf(),
        ensures
            final(self).wf(),
            current_tag(old(self).attached(), webview_id@) == Some(native_tag@) ==> final(self).attached()
                == old(self).attached().remove(webview_id@) && final(self).installing() == old(self).installing().remove(
                native_tag@,
            ) && final(self).installed() == old(self).installed().remove(native_tag@),
            current_tag(old(self).attached(), webview_id@) != Some(native_tag@) ==> final(self).attached()
                == old(self).attached() && final(self).installing() == old(self).installing() && final(self).installed()
                == old(self).installed(),
            final(self).declared() == old(self).declared(),
            final(self).schemes() == old(self).schemes(),
    {
        let current = match self.attached.get(webview_id) {
            Some(t) => text_eq(t.as_str(), native_tag),
            None => false,
        };
        if !current {
            return;
        }
        let _ = self.attached.remove(webview_id);
        assert(self.attached() =~= old(self).attached().remove(webview_id@));
        self.installing.remove_group(native_tag);
        self.installed.remove_group(native_tag);
    }

    /// Forgets every attached controller and installation record.
    pub fn clear_attached(&mut self)
        requires
            old(self).wf(),
        ensures
            final(self).wf(),
            final(self).attached() == Map::<Seq<char>, Seq<char>>::empty(),
            final(self).installing() == Map::<Seq<char>, Set<Seq<char>>>::empty(),
            final(self).installed() == Map::<Seq<char>, Set<Seq<char>>>::empty(),
            final(self).declared() == old(self).declared(),
            final(self).schemes() == old(self).schemes(),
    {
        self.attached.clear();
        assert(self.attached() =~= Map::<Seq<char>, Seq<char>>::empty());
        self.installing.clear();
        self.installed.clear();
    }
}

/// `(scheme, options)` is among the registered pairs.
pub open spec fn pair_listed(registered: Seq<(String, u32)>, scheme: Seq<char>, options: u32) -> bool {
    exists|k: int| 0 <= k < registered.len() && #[trigger] registered[k].0@ == scheme && registered[k].1 == options
}

/// An installation is reserved once per controller: right after a granted
/// reservation, reserving the same scheme on the same controller is refused,
/// while another controller can still reserve it.
pub proof fn law_reservation_is_granted_once(
    installing: Map<Seq<char>, Set<Seq<char>>>,
    installed: Map<Seq<char>, Set<Seq<char>>>,
    tag: Seq<char>,
    other: Seq<char>,
    scheme: Seq<char>,
)
    requires
        !members(installed, tag).contains(scheme),
        !members(installing, tag).contains(scheme),
        other != tag,
    ensures
        ({
            let after = installing.insert(tag, members(installing, tag).insert(scheme));
            &&& members(after, tag).contains(scheme)
            &&& members(after, other) == members(installing, other)
        }),
{
}

/// Registering a scheme again with the same options is accepted and needs
/// nothing more, in every phase; other options, or a new scheme after the
/// engine start began, are refused.
pub proof fn law_registration_is_idempotent(
    schemes: Map<Seq<char>, u32>,
    sealed: bool,
    flushed: bool,
    engine_initialized: bool,
    scheme: Seq<char>,
    bits: u32,
    other_bits: u32,
)
    requires
        bits != other_bits,
    ensures
        registration_needed(schemes.insert(scheme, bits), sealed, flushed, engine_initialized, scheme, bits)
            == Ok::<bool, Seq<char>>(false),
        registration_needed(schemes.insert(scheme, bits), sealed, flushed, engine_initialized, scheme, other_bits)
            is Err,
        !schemes.contains_key(scheme) && (sealed || flushed || engine_initialized) ==> registration_needed(
            schemes,
            sealed,
            flushed,
            engine_initialized,
            scheme,
            bits,
        ) is Err,
{
}

} // verus!
