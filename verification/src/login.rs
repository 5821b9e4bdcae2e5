//! Decisions of the interactive Filen CLI login: which prompt the CLI is
//! showing, what to answer, and how the login window's close is handled.
//!
//! The application runs the CLI in a pseudo-terminal and owns the secrets;
//! this module only reads the CLI's output and says which answer is due.

use crate::cli::network::contains_chars;
use crate::text::{char_width, chars_of, lemma_utf8_len_push, trim, trim_str, utf8_len, utf8_width};
use crate::cli::network::contains_infix;
use vstd::prelude::*;

verus! {

/// Bytes of recent CLI output kept for prompt recognition.
pub const OUTPUT_BUFFER_LIMIT: usize = 32768;

/// The result of a login attempt, as reported to the login window.
#[derive(Debug, Clone, Copy, PartialEq, Eq, Structural)]
pub enum LoginOutcome {
    NeedsTwoFactor,
    Success,
    InvalidCredentials,
    InvalidTwoFactor,
    KeychainUnavailable,
    MissingFields,
    Busy,
    NoActiveLogin,
    Timeout,
    Cancelled,
    Failed,
}

pub open spec fn status_of(o: LoginOutcome) -> Seq<char> {
    match o {
        LoginOutcome::NeedsTwoFactor => "needsTwoFactor"@,
        LoginOutcome::Success => "success"@,
        LoginOutcome::InvalidCredentials => "invalidCredentials"@,
        LoginOutcome::InvalidTwoFactor => "invalidTwoFactor"@,
        LoginOutcome::KeychainUnavailable => "keychainUnavailable"@,
        LoginOutcome::MissingFields => "missingFields"@,
        LoginOutcome::Busy => "busy"@,
        LoginOutcome::NoActiveLogin => "noActiveLogin"@,
        LoginOutcome::Timeout => "timeout"@,
        LoginOutcome::Cancelled => "cancelled"@,
        LoginOutcome::Failed => "failed"@,
    }
}

impl LoginOutcome {
    /// The status string the login window understands.
    pub fn status(&self) -> (r: &'static str)
        ensures
            r@ == status_of(*self),
    {
        match self {
            Self::NeedsTwoFactor => "needsTwoFactor",
            Self::Success => "success",
            Self::InvalidCredentials => "invalidCredentials",
            Self::InvalidTwoFactor => "invalidTwoFactor",
            Self::KeychainUnavailable => "keychainUnavailable",
            Self::MissingFields => "missingFields",
            Self::Busy => "busy",
            Self::NoActiveLogin => "noActiveLogin",
            Self::Timeout => "timeout",
            Self::Cancelled => "cancelled",
            Self::Failed => "failed",
        }
    }

    /// Every outcome but a two-factor request ends the login.
    pub fn is_terminal(&self) -> (r: bool)
        ensures
            r == (*self != LoginOutcome::NeedsTwoFactor),
    {
        !matches!(self, Self::NeedsTwoFactor)
    }
}

/// The response sent to the login window.
#[derive(Debug, Clone, Copy, PartialEq, Eq)]
pub struct LoginResponse {
    pub status: &'static str,
}

impl LoginResponse {
    pub fn from_outcome(outcome: LoginOutcome) -> (r: Self)
        ensures
            r.status@ == status_of(outcome),
    {
        LoginResponse { status: outcome.status() }
    }
}

/// What to do in response to the CLI's login output.
#[derive(Debug, Clone, Copy, PartialEq, Eq, Structural)]
pub enum DriverAction {
    SendEmail,
    SendPassword,
    NeedsTwoFactor,
    SendRemember,
    Success,
    InvalidCredentials,
    InvalidTwoFactor,
    KeychainUnavailable,
}

/// State of the prompt driver as a mathematical value.
pub struct DriverModel {
    pub output: Seq<char>,
    pub sent_email: bool,
    pub sent_password: bool,
    pub requested_two_factor: bool,
    pub sent_remember: bool,
    pub terminal: bool,
}

/// `s` without its first characters, as few as cover `target` bytes.
pub open spec fn drop_bytes(s: Seq<char>, target: int) -> Seq<char>
    decreases s.len(),
{
    if target <= 0 || s.len() == 0 {
        s
    } else {
        drop_bytes(s.drop_first(), target - utf8_width(s[0]))
    }
}

/// The retained output: the newest `OUTPUT_BUFFER_LIMIT` bytes, cut at a
/// character boundary.
pub open spec fn bounded_output(s: Seq<char>) -> Seq<char> {
    if utf8_len(s) > OUTPUT_BUFFER_LIMIT {
        drop_bytes(s, utf8_len(s) - OUTPUT_BUFFER_LIMIT)
    } else {
        s
    }
}

pub open spec fn opt_action(b: bool, a: DriverAction) -> Seq<DriverAction> {
    if b {
        seq![a]
    } else {
        Seq::empty()
    }
}

/// The prompts and verdicts recognised in the output, and the answers due.
pub open spec fn drive(s: DriverModel, chunk: Seq<char>) -> (DriverModel, Seq<DriverAction>) {
    if s.terminal {
        (s, Seq::empty())
    } else {
        let out = bounded_output(s.output + chunk);
        let has = |p: Seq<char>| contains_infix(out, p);
        let email = !s.sent_email && has("Email:"@);
        let password = !s.sent_password && has("Password:"@);
        let s1 = DriverModel {
            output: out,
            sent_email: s.sent_email || email,
            sent_password: s.sent_password || password,
            ..s
        };
        let first = opt_action(email, DriverAction::SendEmail) + opt_action(
            password,
            DriverAction::SendPassword,
        );
        if has("Invalid Two Factor Authentication code"@) || has(
            "Two-factor authentication code wrong"@,
        ) {
            (DriverModel { terminal: true, ..s1 }, first.push(DriverAction::InvalidTwoFactor))
        } else if has("Invalid credentials!"@) || has("Email or password wrong"@) {
            (DriverModel { terminal: true, ..s1 }, first.push(DriverAction::InvalidCredentials))
        } else {
            let two_factor = !s.requested_two_factor && (has(
                "Please enter your 2FA code or recovery key:"@,
            ) || has("Two-factor authentication code:"@));
            let remember = !s.sent_remember && has("Keep me logged in?"@);
            let s2 = DriverModel {
                requested_two_factor: s.requested_two_factor || two_factor,
                sent_remember: s.sent_remember || remember,
                ..s1
            };
            let second = first + opt_action(two_factor, DriverAction::NeedsTwoFactor) + opt_action(
                remember,
                DriverAction::SendRemember,
            );
            if has("save credentials crypto key in keychain"@) || has(
                "Failed to save credentials in keyring"@,
            ) {
                (DriverModel { terminal: true, ..s2 }, second.push(DriverAction::KeychainUnavailable))
            } else if has("You can delete these credentials using `filen logout`"@) || has(
                "Saved credentials"@,
            ) {
                (DriverModel { terminal: true, ..s2 }, second.push(DriverAction::Success))
            } else {
                (s2, second)
            }
        }
    }
}

/// Recognises the CLI's login prompts across arbitrarily split output.
pub struct LoginPromptDriver {
    output: Vec<char>,
    output_bytes: usize,
    sent_email: bool,
    sent_password: bool,
    requested_two_factor: bool,
    sent_remember: bool,
    terminal: bool,
}

impl View for LoginPromptDriver {
    type V = DriverModel;

    closed spec fn view(&self) -> DriverModel {
        DriverModel {
            output: self.output@,
            sent_email: self.sent_email,
            sent_password: self.sent_password,
            requested_two_factor: self.requested_two_factor,
            sent_remember: self.sent_remember,
            terminal: self.terminal,
        }
    }
}

pub proof fn lemma_drop_bytes(s: Seq<char>, target: int)
    ensures
        utf8_len(drop_bytes(s, target)) <= utf8_len(s),
        target > 0 ==> utf8_len(drop_bytes(s, target)) <= utf8_len(s) - target || drop_bytes(
            s,
            target,
        ).len() == 0,
        target <= utf8_len(s) ==> utf8_len(drop_bytes(s, target)) <= utf8_len(s) - target,
    decreases s.len(),
{
    if target > 0 && s.len() > 0 {
        lemma_utf8_len_first(s);
        lemma_drop_bytes(s.drop_first(), target - utf8_width(s[0]));
    }
}

pub proof fn lemma_utf8_len_first(s: Seq<char>)
    requires
        s.len() > 0,
    ensures
        utf8_len(s) == utf8_width(s[0]) + utf8_len(s.drop_first()),
    decreases s.len(),
{
    if s.len() > 1 {
        lemma_utf8_len_first(s.drop_last());
        assert(utf8_len(s) == utf8_len(s.drop_last()) + utf8_width(s.last()));
        assert(s.drop_last().drop_first() =~= s.drop_first().drop_last());
        assert(s.drop_first().last() == s.last());
        assert(s.drop_last()[0] == s[0]);
        assert(utf8_len(s.drop_first()) == utf8_len(s.drop_first().drop_last()) + utf8_width(
            s.drop_first().last(),
        ));
    } else {
        assert(s.drop_first().len() == 0);
        assert(s.drop_last().len() == 0);
        assert(utf8_len(s) == utf8_len(s.drop_last()) + utf8_width(s.last()));
        assert(utf8_len(s.drop_last()) == 0);
        assert(utf8_len(s.drop_first()) == 0);
        assert(s.last() == s[0]);
    }
}

pub proof fn lemma_utf8_len_concat(a: Seq<char>, b: Seq<char>)
    ensures
        utf8_len(a + b) == utf8_len(a) + utf8_len(b),
    decreases b.len(),
{
    if b.len() == 0 {
        assert(a + b =~= a);
    } else {
        assert((a + b).drop_last() =~= a + b.drop_last());
        lemma_utf8_len_concat(a, b.drop_last());
    }
}

impl LoginPromptDriver {
    /// Output length bookkeeping and the retained-output bound.
    pub closed spec fn wf(&self) -> bool {
        &&& self.output_bytes == utf8_len(self.output@)
        &&& self.output_bytes <= OUTPUT_BUFFER_LIMIT
    }

    pub fn new() -> (r: Self)
        ensures
            r.wf(),
            r@ == (DriverModel {
                output: Seq::empty(),
                sent_email: false,
                sent_password: false,
                requested_two_factor: false,
                sent_remember: false,
                terminal: false,
            }),
    {
        LoginPromptDriver {
            output: Vec::new(),
            output_bytes: 0,
            sent_email: false,
            sent_password: false,
            requested_two_factor: false,
            sent_remember: false,
            terminal: false,
        }
    }

    /// Bytes of output currently retained.
    pub fn retained_bytes(&self) -> (r: usize)
        requires
            self.wf(),
        ensures
            r == utf8_len(self@.output),
            r <= OUTPUT_BUFFER_LIMIT,
    {
        self.output_bytes
    }

    fn has(&self, pattern: &str) -> (r: bool)
        ensures
            r == contains_infix(self.output@, pattern@),
    {
        let p = chars_of(pattern);
        contains_chars(&self.output, &p)
    }

    /// Append output, keeping only the newest bytes within the limit.
    fn append_output(&mut self, chunk: &str)
        requires
            old(self).wf(),
        ensures
            final(self).wf(),
            final(self)@ == (DriverModel { output: bounded_output(old(self)@.output + chunk@), ..old(self)@ }),
    {
        let chars = chars_of(chunk);
        let mut all: Vec<char> = Vec::new();
        let mut total: u128 = 0;
        let mut i: usize = 0;
        let ghost joined = self.output@ + chunk@;
        while i < self.output.len()
            invariant
                0 <= i <= self.output@.len(),
                all@ == self.output@.take(i as int),
                total == utf8_len(all@),
                total <= 4 * i,
            decreases self.output@.len() - i,
        {
            proof {
                lemma_utf8_len_push(all@, self.output@[i as int]);
            }
            total = total + char_width(self.output[i]) as u128;
            all.push(self.output[i]);
            assert(all@ =~= self.output@.take(i + 1));
            i = i + 1;
        }
        assert(all@ =~= self.output@);
        let mut j: usize = 0;
        while j < chars.len()
            invariant
                chars@ == chunk@,
                0 <= j <= chars@.len(),
                all@ == self.output@ + chunk@.take(j as int),
                total == utf8_len(all@),
                total <= 4 * (self.output@.len() + j),
                self.output@.len() <= usize::MAX,
            decreases chars@.len() - j,
        {
            proof {
                lemma_utf8_len_push(all@, chars@[j as int]);
            }
            total = total + char_width(chars[j]) as u128;
            all.push(chars[j]);
            assert(all@ =~= self.output@ + chunk@.take(j + 1));
            j = j + 1;
        }
        assert(all@ =~= joined);
        if total > OUTPUT_BUFFER_LIMIT as u128 {
            let ghost target = total - OUTPUT_BUFFER_LIMIT;
            let mut dropped: u128 = 0;
            let mut k: usize = 0;
            assert(all@.skip(0) =~= all@);
            assert(all@.take(0) =~= Seq::<char>::empty());
            while k < all.len() && dropped < total - OUTPUT_BUFFER_LIMIT as u128
                invariant
                    0 <= k <= all@.len(),
                    total == utf8_len(all@),
                    total > OUTPUT_BUFFER_LIMIT,
                    target == total - OUTPUT_BUFFER_LIMIT,
                    dropped == utf8_len(all@.take(k as int)),
                    dropped <= total,
                    drop_bytes(all@, target as int) == drop_bytes(
                        all@.skip(k as int),
                        target - dropped,
                    ),
                decreases all@.len() - k,
            {
                proof {
                    lemma_utf8_len_push(all@.take(k as int), all@[k as int]);
                    assert(all@.take(k + 1) =~= all@.take(k as int).push(all@[k as int]));
                    assert(all@.skip(k as int).drop_first() =~= all@.skip(k + 1));
                    lemma_utf8_len_concat(all@.take(k + 1), all@.skip(k + 1));
                    assert(all@.take(k + 1) + all@.skip(k + 1) =~= all@);
                    assert(all@.skip(k as int)[0] == all@[k as int]);
                    assert(drop_bytes(all@.skip(k as int), target - dropped) == drop_bytes(
                        all@.skip(k + 1),
                        target - dropped - utf8_width(all@[k as int]),
                    ));
                }
                dropped = dropped + char_width(all[k]) as u128;
                k = k + 1;
            }
            let kept = crate::text::slice_chars(&all, k, all.len());
            proof {
                lemma_utf8_len_concat(all@.take(k as int), all@.skip(k as int));
                assert(all@.take(k as int) + all@.skip(k as int) =~= all@);
                assert(kept@ =~= all@.skip(k as int));
                if k < all@.len() {
                    assert(drop_bytes(all@.skip(k as int), target - dropped) == all@.skip(k as int));
                } else {
                    assert(all@.skip(k as int).len() == 0);
                }
            }
            self.output = kept;
            self.output_bytes = (total - dropped) as usize;
        } else {
            self.output = all;
            self.output_bytes = total as usize;
        }
    }

    /// Feed one chunk of CLI output; returns the answers now due, in order.
    /// Nothing happens once a terminal verdict has been recognised.
    pub fn push(&mut self, chunk: &str) -> (actions: Vec<DriverAction>)
        requires
            old(self).wf(),
        ensures
            final(self).wf(),
            (final(self)@, actions@) == drive(old(self)@, chunk@),
    {
        if self.terminal {
            return Vec::new();
        }
        self.append_output(chunk);
        let mut actions: Vec<DriverAction> = Vec::new();
        if !self.sent_email && self.has("Email:") {
            self.sent_email = true;
            actions.push(DriverAction::SendEmail);
        }
        if !self.sent_password && self.has("Password:") {
            self.sent_password = true;
            actions.push(DriverAction::SendPassword);
        }
        if self.has("Invalid Two Factor Authentication code") || self.has(
            "Two-factor authentication code wrong",
        ) {
            self.terminal = true;
            actions.push(DriverAction::InvalidTwoFactor);
            return actions;
        }
        if self.has("Invalid credentials!") || self.has("Email or password wrong") {
            self.terminal = true;
            actions.push(DriverAction::InvalidCredentials);
            return actions;
        }
        if !self.requested_two_factor && (self.has("Please enter your 2FA code or recovery key:")
            || self.has("Two-factor authentication code:")) {
            self.requested_two_factor = true;
            actions.push(DriverAction::NeedsTwoFactor);
        }
        if !self.sent_remember && self.has("Keep me logged in?") {
            self.sent_remember = true;
            actions.push(DriverAction::SendRemember);
        }
        if self.has("save credentials crypto key in keychain") || self.has(
            "Failed to save credentials in keyring",
        ) {
            self.terminal = true;
            actions.push(DriverAction::KeychainUnavailable);
            return actions;
        }
        if self.has("You can delete these credentials using `filen logout`") || self.has(
            "Saved credentials",
        ) {
            self.terminal = true;
            actions.push(DriverAction::Success);
        }
        actions
    }
}

/// The driver fed `chunks` one after another, with all the answers it gave.
pub open spec fn drive_all(s: DriverModel, chunks: Seq<Seq<char>>) -> (DriverModel, Seq<DriverAction>)
    decreases chunks.len(),
{
    if chunks.len() == 0 {
        (s, Seq::empty())
    } else {
        let (s1, a1) = drive(s, chunks[0]);
        let (s2, a2) = drive_all(s1, chunks.drop_first());
        (s2, a1 + a2)
    }
}

/// Number of actions in `acts` satisfying `p`.
pub open spec fn count_where(acts: Seq<DriverAction>, p: spec_fn(DriverAction) -> bool) -> nat
    decreases acts.len(),
{
    if acts.len() == 0 {
        0
    } else {
        (if p(acts[0]) {
            1nat
        } else {
            0nat
        }) + count_where(acts.drop_first(), p)
    }
}

/// A verdict ends the login.
pub open spec fn is_verdict(a: DriverAction) -> bool {
    matches!(a, DriverAction::Success | DriverAction::InvalidCredentials
        | DriverAction::InvalidTwoFactor | DriverAction::KeychainUnavailable)
}

/// Whether the driver in state `s` already sent reply `a`; for the verdicts,
/// whether the login has ended.
pub open spec fn answered(s: DriverModel, a: DriverAction) -> bool {
    match a {
        DriverAction::SendEmail => s.sent_email,
        DriverAction::SendPassword => s.sent_password,
        DriverAction::NeedsTwoFactor => s.requested_two_factor,
        DriverAction::SendRemember => s.sent_remember,
        _ => s.terminal,
    }
}

proof fn lemma_count_concat(x: Seq<DriverAction>, y: Seq<DriverAction>, p: spec_fn(DriverAction) -> bool)
    ensures
        count_where(x + y, p) == count_where(x, p) + count_where(y, p),
    decreases x.len(),
{
    if x.len() == 0 {
        assert(x + y =~= y);
    } else {
        assert((x + y).drop_first() =~= x.drop_first() + y);
        lemma_count_concat(x.drop_first(), y, p);
    }
}

proof fn lemma_count_opt(b: bool, a: DriverAction, p: spec_fn(DriverAction) -> bool)
    ensures
        count_where(opt_action(b, a), p) == (if b && p(a) {
            1nat
        } else {
            0nat
        }),
{
    reveal_with_fuel(count_where, 2);
    if b {
        assert(opt_action(b, a).drop_first() =~= Seq::<DriverAction>::empty());
        assert(opt_action(b, a)[0] == a);
    }
}

proof fn lemma_count_push(x: Seq<DriverAction>, a: DriverAction, p: spec_fn(DriverAction) -> bool)
    ensures
        count_where(x.push(a), p) == count_where(x, p) + (if p(a) {
            1nat
        } else {
            0nat
        }),
{
    reveal_with_fuel(count_where, 2);
    lemma_count_concat(x, seq![a], p);
    assert(x.push(a) =~= x + seq![a]);
    assert(seq![a].drop_first() =~= Seq::<DriverAction>::empty());
    assert(seq![a][0] == a);
}

/// One chunk: a reply already sent is not sent again, a reply sent now is
/// remembered, and remembered replies stay remembered.
#[verifier::spinoff_prover]
#[verifier::rlimit(40)]
proof fn lemma_drive_step_reply(s: DriverModel, chunk: Seq<char>, a: DriverAction)
    ensures
        count_where(drive(s, chunk).1, |x: DriverAction| x == a) <= (if answered(s, a) {
            0nat
        } else {
            1nat
        }),
        count_where(drive(s, chunk).1, |x: DriverAction| x == a) > 0 ==> answered(drive(s, chunk).0, a),
        answered(s, a) ==> answered(drive(s, chunk).0, a),
{
    let eq = |x: DriverAction| x == a;
    if !s.terminal {
        let out = bounded_output(s.output + chunk);
        let has = |p: Seq<char>| contains_infix(out, p);
        let email = !s.sent_email && has("Email:"@);
        let password = !s.sent_password && has("Password:"@);
        let two_factor = !s.requested_two_factor && (has(
            "Please enter your 2FA code or recovery key:"@,
        ) || has("Two-factor authentication code:"@));
        let remember = !s.sent_remember && has("Keep me logged in?"@);
        let o1 = opt_action(email, DriverAction::SendEmail);
        let o2 = opt_action(password, DriverAction::SendPassword);
        let o3 = opt_action(two_factor, DriverAction::NeedsTwoFactor);
        let o4 = opt_action(remember, DriverAction::SendRemember);
        let first = o1 + o2;
        let second = first + o3 + o4;
        lemma_count_opt(email, DriverAction::SendEmail, eq);
        lemma_count_opt(password, DriverAction::SendPassword, eq);
        lemma_count_opt(two_factor, DriverAction::NeedsTwoFactor, eq);
        lemma_count_opt(remember, DriverAction::SendRemember, eq);
        lemma_count_concat(o1, o2, eq);
        lemma_count_concat(first, o3, eq);
        lemma_count_concat(first + o3, o4, eq);
        lemma_count_push(first, DriverAction::InvalidTwoFactor, eq);
        lemma_count_push(first, DriverAction::InvalidCredentials, eq);
        lemma_count_push(second, DriverAction::KeychainUnavailable, eq);
        lemma_count_push(second, DriverAction::Success, eq);
    }
}

/// One chunk: at most one verdict is given, none once the login has ended,
/// and a verdict ends the login for good.
#[verifier::spinoff_prover]
#[verifier::rlimit(40)]
proof fn lemma_drive_step_verdict(s: DriverModel, chunk: Seq<char>)
    ensures
        count_where(drive(s, chunk).1, |x: DriverAction| is_verdict(x)) <= (if s.terminal {
            0nat
        } else {
            1nat
        }),
        count_where(drive(s, chunk).1, |x: DriverAction| is_verdict(x)) > 0 ==> drive(s, chunk).0.terminal,
        s.terminal ==> drive(s, chunk).0.terminal,
{
    let ver = |x: DriverAction| is_verdict(x);
    if !s.terminal {
        let out = bounded_output(s.output + chunk);
        let has = |p: Seq<char>| contains_infix(out, p);
        let email = !s.sent_email && has("Email:"@);
        let password = !s.sent_password && has("Password:"@);
        let two_factor = !s.requested_two_factor && (has(
            "Please enter your 2FA code or recovery key:"@,
        ) || has("Two-factor authentication code:"@));
        let remember = !s.sent_remember && has("Keep me logged in?"@);
        let o1 = opt_action(email, DriverAction::SendEmail);
        let o2 = opt_action(password, DriverAction::SendPassword);
        let o3 = opt_action(two_factor, DriverAction::NeedsTwoFactor);
        let o4 = opt_action(remember, DriverAction::SendRemember);
        let first = o1 + o2;
        let second = first + o3 + o4;
        lemma_count_opt(email, DriverAction::SendEmail, ver);
        lemma_count_opt(password, DriverAction::SendPassword, ver);
        lemma_count_opt(two_factor, DriverAction::NeedsTwoFactor, ver);
        lemma_count_opt(remember, DriverAction::SendRemember, ver);
        lemma_count_concat(o1, o2, ver);
        lemma_count_concat(first, o3, ver);
        lemma_count_concat(first + o3, o4, ver);
        lemma_count_push(first, DriverAction::InvalidTwoFactor, ver);
        lemma_count_push(first, DriverAction::InvalidCredentials, ver);
        lemma_count_push(second, DriverAction::KeychainUnavailable, ver);
        lemma_count_push(second, DriverAction::Success, ver);
    }
}

/// Over any sequence of output chunks, the login is answered at most once
/// per prompt (never when already answered), at most one verdict is given
/// (none once the login has ended), and a driver that has reached a verdict
/// does nothing more.
pub proof fn lemma_each_answer_at_most_once(s: DriverModel, chunks: Seq<Seq<char>>, a: DriverAction)
    ensures
        count_where(drive_all(s, chunks).1, |x: DriverAction| x == a) <= (if answered(s, a) {
            0nat
        } else {
            1nat
        }),
        count_where(drive_all(s, chunks).1, |x: DriverAction| is_verdict(x)) <= (if s.terminal {
            0nat
        } else {
            1nat
        }),
        s.terminal ==> drive_all(s, chunks) == (s, Seq::<DriverAction>::empty()),
    decreases chunks.len(),
{
    let eq = |x: DriverAction| x == a;
    let ver = |x: DriverAction| is_verdict(x);
    if chunks.len() > 0 {
        let (s1, a1) = drive(s, chunks[0]);
        lemma_drive_step_reply(s, chunks[0], a);
        lemma_drive_step_verdict(s, chunks[0]);
        lemma_each_answer_at_most_once(s1, chunks.drop_first(), a);
        let (s2, a2) = drive_all(s1, chunks.drop_first());
        lemma_count_concat(a1, a2, eq);
        lemma_count_concat(a1, a2, ver);
        if s.terminal {
            assert(a1 + a2 =~= Seq::<DriverAction>::empty());
        }
    }
}

/// Within one chunk's answers, a verdict comes last: nothing follows it, and
/// the driver has then ended, so every later chunk gets no answer at all.
#[verifier::spinoff_prover]
#[verifier::rlimit(40)]
pub proof fn lemma_verdict_comes_last(s: DriverModel, chunk: Seq<char>)
    ensures
        forall|i: int|
            0 <= i < drive(s, chunk).1.len() && is_verdict(#[trigger] drive(s, chunk).1[i]) ==> i
                == drive(s, chunk).1.len() - 1 && drive(s, chunk).0.terminal,
{
    if !s.terminal {
        let out = bounded_output(s.output + chunk);
        let has = |p: Seq<char>| contains_infix(out, p);
        let email = !s.sent_email && has("Email:"@);
        let password = !s.sent_password && has("Password:"@);
        let two_factor = !s.requested_two_factor && (has(
            "Please enter your 2FA code or recovery key:"@,
        ) || has("Two-factor authentication code:"@));
        let remember = !s.sent_remember && has("Keep me logged in?"@);
        let o1 = opt_action(email, DriverAction::SendEmail);
        let o2 = opt_action(password, DriverAction::SendPassword);
        let o3 = opt_action(two_factor, DriverAction::NeedsTwoFactor);
        let o4 = opt_action(remember, DriverAction::SendRemember);
        let first = o1 + o2;
        let second = first + o3 + o4;
        assert forall|j: int| 0 <= j < second.len() implies !is_verdict(#[trigger] second[j]) by {
            if j < o1.len() {
                assert(second[j] == o1[j]);
            } else if j < o1.len() + o2.len() {
                assert(second[j] == o2[j - o1.len()]);
            } else if j < o1.len() + o2.len() + o3.len() {
                assert(second[j] == o3[j - o1.len() - o2.len()]);
            } else {
                assert(second[j] == o4[j - o1.len() - o2.len() - o3.len()]);
            }
        }
        assert forall|j: int| 0 <= j < first.len() implies !is_verdict(#[trigger] first[j]) by {
            assert(first[j] == second[j]);
        }
    }
}

/// Law: once the output seen so far reports wrong credentials ("Email or
/// password wrong" or "Invalid credentials!") and no wrong two-factor code,
/// the driver answers `InvalidCredentials` as the last action of that chunk
/// and the login has ended; prompts still pending in the same output are
/// answered first, nothing after.
pub proof fn lemma_wrong_credentials_end_the_login(s: DriverModel, chunk: Seq<char>)
    requires
        !s.terminal,
        contains_infix(bounded_output(s.output + chunk), "Email or password wrong"@)
            || contains_infix(bounded_output(s.output + chunk), "Invalid credentials!"@),
        !contains_infix(
            bounded_output(s.output + chunk),
            "Invalid Two Factor Authentication code"@,
        ),
        !contains_infix(bounded_output(s.output + chunk), "Two-factor authentication code wrong"@),
    ensures
        drive(s, chunk).0.terminal,
        drive(s, chunk).1.len() > 0,
        drive(s, chunk).1.last() == DriverAction::InvalidCredentials,
        drive(s, chunk).0.output == bounded_output(s.output + chunk),
{
}

/// Law: a wrong two-factor code ends the login the same way, with
/// `InvalidTwoFactor` as the last action.
pub proof fn lemma_wrong_two_factor_code_ends_the_login(s: DriverModel, chunk: Seq<char>)
    requires
        !s.terminal,
        contains_infix(
            bounded_output(s.output + chunk),
            "Invalid Two Factor Authentication code"@,
        ) || contains_infix(
            bounded_output(s.output + chunk),
            "Two-factor authentication code wrong"@,
        ),
    ensures
        drive(s, chunk).0.terminal,
        drive(s, chunk).1.len() > 0,
        drive(s, chunk).1.last() == DriverAction::InvalidTwoFactor,
{
}

/// Keeps the tray application alive when the transient login window closes.
pub struct ExitGuard {
    keep_alive_after_window_close: bool,
}

impl ExitGuard {
    pub fn new() -> (r: Self)
        ensures
            !r.armed(),
    {
        ExitGuard { keep_alive_after_window_close: false }
    }

    /// Whether the next implicit exit request is to be refused.
    pub closed spec fn armed(&self) -> bool {
        self.keep_alive_after_window_close
    }

    /// The login window is closing: refuse the one exit request it causes.
    pub fn mark_window_closing(&mut self)
        ensures
            final(self).armed(),
    {
        self.keep_alive_after_window_close = true;
    }

    /// Closing the window failed: nothing to refuse.
    pub fn clear_window_closing(&mut self)
        ensures
            !final(self).armed(),
    {
        self.keep_alive_after_window_close = false;
    }

    /// Consume the one exit request caused by destroying the login window.
    /// Programmatic exits (with an exit code) are never refused.
    pub fn should_prevent_exit(&mut self, exit_code: Option<i32>) -> (r: bool)
        ensures
            r == (exit_code is None && old(self).armed()),
            !final(self).armed(),
    {
        let was_closing = self.keep_alive_after_window_close;
        self.keep_alive_after_window_close = false;
        exit_code.is_none() && was_closing
    }
}

/// Texts of the login window, in the interface language.
#[derive(Debug, Clone, PartialEq, Eq)]
pub struct LoginCopy {
    pub locale: String,
    pub platform: String,
    pub window_title: String,
    pub title: String,
    pub intro: String,
    pub email_label: String,
    pub email_placeholder: String,
    pub password_label: String,
    pub password_placeholder: String,
    pub persist_note: String,
    pub alternative_title: String,
    pub alternative_note: String,
    pub submit: String,
    pub cancel: String,
    pub authenticating: String,
    pub two_factor_title: String,
    pub two_factor_intro: String,
    pub two_factor_label: String,
    pub two_factor_placeholder: String,
    pub verify: String,
    pub verifying: String,
    pub success: String,
    pub error_missing_fields: String,
    pub error_invalid_credentials: String,
    pub error_invalid_two_factor: String,
    pub error_keychain_unavailable: String,
    pub error_busy: String,
    pub error_timeout: String,
    pub error_failed: String,
}

/// Whether a login request lacks what it needs: an email that is not just
/// whitespace, and a password.
pub fn missing_login_fields(email: &str, password: &str) -> (r: bool)
    ensures
        r == (trim(email@).len() == 0 || password@.len() == 0),
{
    trim_str(email).is_empty() || password.is_empty()
}

/// Why a login request is refused before anything is started: missing
/// fields first, then another login in progress (`busy`); `None` when it may
/// proceed.
pub fn login_refusal(email: &str, password: &str, busy: bool) -> (r: Option<LoginOutcome>)
    ensures
        r == (if trim(email@).len() == 0 || password@.len() == 0 {
            Some(LoginOutcome::MissingFields)
        } else if busy {
            Some(LoginOutcome::Busy)
        } else {
            None
        }),
{
    if missing_login_fields(email, password) {
        Some(LoginOutcome::MissingFields)
    } else if busy {
        Some(LoginOutcome::Busy)
    } else {
        None
    }
}

/// Whether a two-factor code is missing (empty or only whitespace).
pub fn missing_two_factor_code(code: &str) -> (r: bool)
    ensures
        r == (trim(code@).len() == 0),
{
    trim_str(code).is_empty()
}

/// A secret the application holds for the login.
#[derive(Debug, Clone, Copy, PartialEq, Eq, Structural)]
pub enum LoginSecret {
    Email,
    Password,
}

/// A fixed line typed into the CLI's terminal.
#[derive(Debug, Clone, Copy, PartialEq, Eq, Structural)]
pub enum ReplyText {
    /// "y": keep me logged in
    Yes,
    /// "n": refuse the plaintext credential fallback
    No,
    /// "exit": leave the CLI's shell after logging in
    Exit,
}

pub open spec fn reply_spec(r: ReplyText) -> Seq<char> {
    match r {
        ReplyText::Yes => "y"@,
        ReplyText::No => "n"@,
        ReplyText::Exit => "exit"@,
    }
}

impl ReplyText {
    /// The text typed (before Enter).
    pub fn text(&self) -> (r: &'static str)
        ensures
            r@ == reply_spec(*self),
    {
        match self {
            ReplyText::Yes => "y",
            ReplyText::No => "n",
            ReplyText::Exit => "exit",
        }
    }
}

/// What the login process runner does for one driver action.
#[derive(Debug, Clone, Copy, PartialEq, Eq, Structural)]
pub enum DriverStep {
    /// Type the secret, followed by Enter
    SendSecret(LoginSecret),
    /// Report that a two-factor code is needed and wait for it (or a cancel)
    AwaitTwoFactor,
    /// Type this text, followed by Enter
    SendText(ReplyText),
    /// Optionally type a last line (failures to write it are ignored), stop
    /// the CLI and report the outcome
    Finish { last_input: Option<ReplyText>, outcome: LoginOutcome },
}

/// The step for each driver action: answer prompts, confirm "keep me logged
/// in", leave the CLI after a success, and never consent to a plaintext
/// credential fallback when the keychain is unavailable.
pub open spec fn step_spec(action: DriverAction) -> DriverStep {
    match action {
        DriverAction::SendEmail => DriverStep::SendSecret(LoginSecret::Email),
        DriverAction::SendPassword => DriverStep::SendSecret(LoginSecret::Password),
        DriverAction::NeedsTwoFactor => DriverStep::AwaitTwoFactor,
        DriverAction::SendRemember => DriverStep::SendText(ReplyText::Yes),
        DriverAction::Success => DriverStep::Finish {
            last_input: Some(ReplyText::Exit),
            outcome: LoginOutcome::Success,
        },
        DriverAction::InvalidCredentials => DriverStep::Finish {
            last_input: None,
            outcome: LoginOutcome::InvalidCredentials,
        },
        DriverAction::InvalidTwoFactor => DriverStep::Finish {
            last_input: None,
            outcome: LoginOutcome::InvalidTwoFactor,
        },
        DriverAction::KeychainUnavailable => DriverStep::Finish {
            last_input: Some(ReplyText::No),
            outcome: LoginOutcome::KeychainUnavailable,
        },
    }
}

/// The step for a driver action.
pub fn step_for(action: DriverAction) -> (r: DriverStep)
    ensures
        r == step_spec(action),
{
    match action {
        DriverAction::SendEmail => DriverStep::SendSecret(LoginSecret::Email),
        DriverAction::SendPassword => DriverStep::SendSecret(LoginSecret::Password),
        DriverAction::NeedsTwoFactor => DriverStep::AwaitTwoFactor,
        DriverAction::SendRemember => DriverStep::SendText(ReplyText::Yes),
        DriverAction::Success => DriverStep::Finish {
            last_input: Some(ReplyText::Exit),
            outcome: LoginOutcome::Success,
        },
        DriverAction::InvalidCredentials => DriverStep::Finish {
            last_input: None,
            outcome: LoginOutcome::InvalidCredentials,
        },
        DriverAction::InvalidTwoFactor => DriverStep::Finish {
            last_input: None,
            outcome: LoginOutcome::InvalidTwoFactor,
        },
        DriverAction::KeychainUnavailable => DriverStep::Finish {
            last_input: Some(ReplyText::No),
            outcome: LoginOutcome::KeychainUnavailable,
        },
    }
}

/// The outcome when the CLI's output ends (or its terminal fails) before the
/// login was decided: cancelled when a cancel was requested, else failed.
pub fn ended_outcome(cancelled: bool) -> (r: LoginOutcome)
    ensures
        r == (if cancelled {
            LoginOutcome::Cancelled
        } else {
            LoginOutcome::Failed
        }),
{
    if cancelled {
        LoginOutcome::Cancelled
    } else {
        LoginOutcome::Failed
    }
}

/// The outcome of waiting for the login process: what it reported, a
/// failure when it went away without reporting (`Some(None)`), or a timeout
/// (`None`), after which the session is cancelled.
pub fn waited_outcome(received: Option<Option<LoginOutcome>>) -> (r: (LoginOutcome, bool))
    ensures
        r == (match received {
            Some(Some(o)) => (o, false),
            Some(None) => (LoginOutcome::Failed, false),
            None => (LoginOutcome::Timeout, true),
        }),
{
    match received {
        Some(Some(o)) => (o, false),
        Some(None) => (LoginOutcome::Failed, false),
        None => (LoginOutcome::Timeout, true),
    }
}

/// The one interactive login allowed at a time, by session number.
pub struct LoginSlot {
    current: Option<u64>,
    next_session: u64,
}

/// Abstract state of a [`LoginSlot`].
pub struct LoginSlotView {
    pub current: Option<u64>,
    pub next_session: u64,
}

impl View for LoginSlot {
    type V = LoginSlotView;

    closed spec fn view(&self) -> LoginSlotView {
        LoginSlotView { current: self.current, next_session: self.next_session }
    }
}

impl LoginSlot {
    /// The active session's number is not the one handed out next.
    pub closed spec fn wf(&self) -> bool {
        self.current matches Some(id) ==> id != self.next_session
    }

    pub fn new() -> (r: Self)
        ensures
            r.wf(),
            r@.current is None,
    {
        LoginSlot { current: None, next_session: 0 }
    }

    /// Start a session: refused with `Busy` while another is active,
    /// otherwise the new session's number. Numbers wrap around after
    /// `u64::MAX`; only the active session's number matters.
    pub fn begin(&mut self) -> (r: Result<u64, LoginOutcome>)
        requires
            old(self).wf(),
        ensures
            final(self).wf(),
            old(self)@.current is Some ==> r == Err::<u64, LoginOutcome>(LoginOutcome::Busy)
                && final(self)@ == old(self)@,
            old(self)@.current is None ==> r == Ok::<u64, LoginOutcome>(old(self)@.next_session)
                && final(self)@ == (LoginSlotView {
                current: Some(old(self)@.next_session),
                next_session: old(self)@.next_session.wrapping_add(1),
            }),
    {
        if self.current.is_some() {
            return Err(LoginOutcome::Busy);
        }
        let id = self.next_session;
        self.current = Some(id);
        self.next_session = id.wrapping_add(1);
        Ok(id)
    }

    /// The active session, if any.
    pub fn active(&self) -> (r: Option<u64>)
        ensures
            r == self@.current,
    {
        self.current
    }

    /// End session `id` if it is still the active one; a later session is
    /// left alone.
    pub fn clear_if_current(&mut self, id: u64)
        requires
            old(self).wf(),
        ensures
            final(self).wf(),
            final(self)@.next_session == old(self)@.next_session,
            old(self)@.current == Some(id) ==> final(self)@.current is None,
            old(self)@.current != Some(id) ==> final(self)@.current == old(self)@.current,
    {
        if self.current == Some(id) {
            self.current = None;
        }
    }

    /// Take the active session out (to cancel it).
    pub fn take(&mut self) -> (r: Option<u64>)
        requires
            old(self).wf(),
        ensures
            final(self).wf(),
            r == old(self)@.current,
            final(self)@.current is None,
            final(self)@.next_session == old(self)@.next_session,
    {
        let r = self.current;
        self.current = None;
        r
    }
}

/// Whether the tray must be told that the in-app login completed.
pub fn reports_login_completed(outcome: LoginOutcome) -> (r: bool)
    ensures
        r == (outcome == LoginOutcome::Success),
{
    outcome == LoginOutcome::Success
}

} // verus!
