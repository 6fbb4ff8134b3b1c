//! Query compile-time build configuration of the terminal engine.
//!
//! These values reflect the options the engine was built with and are constant for the lifetime of
//! the process.
use crate::error::{Error, Result};
use crate::reply::Reply;
use crate::terminal::text_result;
use crate::text::string_from_utf8;
use vstd::prelude::*;

verus! {

/// What can be asked of the engine's build.
#[derive(Clone, Copy, Debug, PartialEq, Eq, Structural)]
pub enum BuildInfo {
    /// Whether SIMD-accelerated code paths are enabled.
    Simd,
    /// Whether Kitty graphics protocol support is available.
    KittyGraphics,
    /// Whether tmux control mode support is available.
    TmuxControlMode,
    /// The optimization mode.
    Optimize,
    /// The full version string.
    VersionString,
    /// The major version number.
    VersionMajor,
    /// The minor version number.
    VersionMinor,
    /// The patch version number.
    VersionPatch,
    /// The build metadata string.
    VersionBuild,
}

/// `res` is what some answer to the question for `tag` comes to.
pub open spec fn told<T, F: FnOnce(BuildInfo) -> Reply<T>>(
    query: F,
    tag: BuildInfo,
    res: Result<T>,
) -> bool {
    exists|reply: Reply<T>| #[trigger] query.ensures((tag,), reply) && res == reply.outcome()
}

/// `res` is what some answer to the question for the text `tag` comes to.
pub open spec fn told_text<F: FnOnce(BuildInfo) -> Reply<Vec<u8>>>(
    query: F,
    tag: BuildInfo,
    res: Result<String>,
) -> bool {
    exists|reply: Reply<Vec<u8>>| #[trigger]
        query.ensures((tag,), reply) && text_result(reply.outcome(), res)
}

/// Whether SIMD-accelerated code paths are enabled.
pub fn supports_simd(query: impl FnOnce(BuildInfo) -> Reply<bool>) -> (res: Result<bool>)
    requires
        query.requires((BuildInfo::Simd,)),
    ensures
        told(query, BuildInfo::Simd, res),
{
    query(BuildInfo::Simd).into_result()
}

/// Whether Kitty graphics protocol support is available.
pub fn supports_kitty_graphics(query: impl FnOnce(BuildInfo) -> Reply<bool>) -> (res: Result<bool>)
    requires
        query.requires((BuildInfo::KittyGraphics,)),
    ensures
        told(query, BuildInfo::KittyGraphics, res),
{
    query(BuildInfo::KittyGraphics).into_result()
}

/// Whether tmux control mode support is available.
pub fn supports_tmux_control_mode(
    query: impl FnOnce(BuildInfo) -> Reply<bool>,
) -> (res: Result<bool>)
    requires
        query.requires((BuildInfo::TmuxControlMode,)),
    ensures
        told(query, BuildInfo::TmuxControlMode, res),
{
    query(BuildInfo::TmuxControlMode).into_result()
}

/// The optimization mode the engine was built with.
///
/// A number that stands for no mode is an invalid value.
pub fn optimize_mode(query: impl FnOnce(BuildInfo) -> Reply<u32>) -> (res: Result<OptimizeMode>)
    requires
        query.requires((BuildInfo::Optimize,)),
    ensures
        exists|reply: Reply<u32>| #[trigger]
            query.ensures((BuildInfo::Optimize,), reply) && res == match reply.outcome() {
                Ok(value) => OptimizeMode::decoded(value),
                Err(e) => Err(e),
            },
{
    match query(BuildInfo::Optimize).into_result() {
        Ok(value) => OptimizeMode::from_code(value),
        Err(e) => Err(e),
    }
}

/// The optimization mode the engine was built with, where the question for it cannot fail and is
/// answered with a number that stands for a mode.
pub fn optimization_mode(query: impl FnOnce(BuildInfo) -> Reply<u32>) -> (res: OptimizeMode)
    requires
        query.requires((BuildInfo::Optimize,)),
        forall|reply: Reply<u32>| #[trigger]
            query.ensures((BuildInfo::Optimize,), reply) ==> reply.outcome() is Ok
                && OptimizeMode::decoded(reply.value) is Ok,
    ensures
        exists|reply: Reply<u32>| #[trigger]
            query.ensures((BuildInfo::Optimize,), reply) && OptimizeMode::decoded(reply.value) == Ok::<
                OptimizeMode,
                Error,
            >(res),
{
    let reply = query(BuildInfo::Optimize);
    match OptimizeMode::from_code(reply.value) {
        Ok(mode) => mode,
        Err(_) => OptimizeMode::Debug,
    }
}

/// The full version string (e.g. "1.2.3" or "1.2.3-dev+abcdef").
///
/// The engine has to answer with UTF-8.
pub fn version_string(query: impl FnOnce(BuildInfo) -> Reply<Vec<u8>>) -> (res: Result<String>)
    requires
        query.requires((BuildInfo::VersionString,)),
        forall|reply: Reply<Vec<u8>>| #[trigger]
            query.ensures((BuildInfo::VersionString,), reply) && reply.outcome() is Ok
                ==> vstd::utf8::valid_utf8(reply.value@),
    ensures
        told_text(query, BuildInfo::VersionString, res),
{
    match query(BuildInfo::VersionString).into_result() {
        Ok(bytes) => match string_from_utf8(bytes) {
            Some(text) => Ok(text),
            None => Err(Error::InvalidValue),
        },
        Err(e) => Err(e),
    }
}

/// The major version number.
pub fn major_version(query: impl FnOnce(BuildInfo) -> Reply<usize>) -> (res: Result<usize>)
    requires
        query.requires((BuildInfo::VersionMajor,)),
    ensures
        told(query, BuildInfo::VersionMajor, res),
{
    query(BuildInfo::VersionMajor).into_result()
}

/// The minor version number.
pub fn minor_version(query: impl FnOnce(BuildInfo) -> Reply<usize>) -> (res: Result<usize>)
    requires
        query.requires((BuildInfo::VersionMinor,)),
    ensures
        told(query, BuildInfo::VersionMinor, res),
{
    query(BuildInfo::VersionMinor).into_result()
}

/// The patch version number.
pub fn patch_version(query: impl FnOnce(BuildInfo) -> Reply<usize>) -> (res: Result<usize>)
    requires
        query.requires((BuildInfo::VersionPatch,)),
    ensures
        told(query, BuildInfo::VersionPatch, res),
{
    query(BuildInfo::VersionPatch).into_result()
}

/// The build metadata string (e.g. commit hash); it has zero length if there is none.
///
/// The engine has to answer with UTF-8.
pub fn build_version(query: impl FnOnce(BuildInfo) -> Reply<Vec<u8>>) -> (res: Result<String>)
    requires
        query.requires((BuildInfo::VersionBuild,)),
        forall|reply: Reply<Vec<u8>>| #[trigger]
            query.ensures((BuildInfo::VersionBuild,), reply) && reply.outcome() is Ok
                ==> vstd::utf8::valid_utf8(reply.value@),
    ensures
        told_text(query, BuildInfo::VersionBuild, res),
{
    match query(BuildInfo::VersionBuild).into_result() {
        Ok(bytes) => match string_from_utf8(bytes) {
            Some(text) => Ok(text),
            None => Err(Error::InvalidValue),
        },
        Err(e) => Err(e),
    }
}

/// The optimization mode the engine is compiled with.
#[derive(Clone, Copy, Debug, PartialEq, Eq, Structural)]
pub enum OptimizeMode {
    /// Debug mode.
    ///
    /// Very slow with all safety checks enabled.
    Debug,
    /// Release mode optimized for safety.
    ///
    /// Faster than debug due to better code generation, but still very slow due to active safety
    /// checks.
    ReleaseSafe,
    /// Release mode optimized for size.
    ReleaseSmall,
    /// Release mode optimized for speed.
    ReleaseFast,
}

impl OptimizeMode {
    /// The number that stands for this value in the engine's interface.
    pub open spec fn spec_code(self) -> u32 {
        match self {
            OptimizeMode::Debug => 0,
            OptimizeMode::ReleaseSafe => 1,
            OptimizeMode::ReleaseSmall => 2,
            OptimizeMode::ReleaseFast => 3,
        }
    }

    /// The value that `code` stands for; a number that stands for none is an invalid value.
    pub open spec fn decoded(code: u32) -> Result<Self> {
        match code {
            0 => Ok(OptimizeMode::Debug),
            1 => Ok(OptimizeMode::ReleaseSafe),
            2 => Ok(OptimizeMode::ReleaseSmall),
            3 => Ok(OptimizeMode::ReleaseFast),
            _ => Err(Error::InvalidValue),
        }
    }

    /// The number that stands for this value in the engine's interface.
    pub fn code(self) -> (res: u32)
        ensures
            res == self.spec_code(),
    {
        match self {
            OptimizeMode::Debug => 0,
            OptimizeMode::ReleaseSafe => 1,
            OptimizeMode::ReleaseSmall => 2,
            OptimizeMode::ReleaseFast => 3,
        }
    }

    /// The value that `code` stands for.
    pub fn from_code(code: u32) -> (res: Result<Self>)
        ensures
            res == Self::decoded(code),
    {
        match code {
            0 => Ok(OptimizeMode::Debug),
            1 => Ok(OptimizeMode::ReleaseSafe),
            2 => Ok(OptimizeMode::ReleaseSmall),
            3 => Ok(OptimizeMode::ReleaseFast),
            _ => Err(Error::InvalidValue),
        }
    }

    /// Every value has a number of its own, and a number decodes to the value that it stands for
    /// and to nothing else.
    pub proof fn codes_round_trip(self, code: u32)
        ensures
            Self::decoded(self.spec_code()) == Ok::<Self, Error>(self),
            Self::decoded(code) matches Ok(value) ==> value.spec_code() == code,
    {
    }

    /// The engine counts the values from zero on: `Debug`, `ReleaseSafe`, `ReleaseSmall`,
    /// `ReleaseFast`. No other number stands for one.
    pub proof fn values_are_counted(self, code: u32)
        ensures
            self is Debug <==> self.spec_code() == 0,
            self is ReleaseSafe <==> self.spec_code() == 1,
            self is ReleaseSmall <==> self.spec_code() == 2,
            self is ReleaseFast <==> self.spec_code() == 3,
            Self::decoded(code) == Ok::<Self, Error>(self) <==> code == self.spec_code(),
            Self::decoded(code) is Ok <==> code < 4,
            Self::decoded(code) is Err ==> Self::decoded(code) == Err::<Self, Error>(
                Error::InvalidValue,
            ),
    {
    }
}

//---------------------------------------
// What the answers say together
//---------------------------------------

/// Whatever is done with the engine, `ask` answers alike: as `info` says, which does not depend on
/// the engine's state.
pub open spec fn tells_constants<S, T, F: FnOnce(BuildInfo) -> Reply<T>>(
    ask: spec_fn(S) -> F,
    info: spec_fn(BuildInfo) -> Result<T>,
) -> bool {
    forall|engine: S, tag: BuildInfo, reply: Reply<T>| #[trigger]
        ask(engine).ensures((tag,), reply) ==> reply.outcome() == info(tag)
}

/// Build information is the same at every call, whatever was done with the engine in between: this
/// holds of [`supports_simd`] and of whatever else is [`told`].
pub proof fn build_information_is_constant<S, T, F: FnOnce(BuildInfo) -> Reply<T>>(
    ask: spec_fn(S) -> F,
    info: spec_fn(BuildInfo) -> Result<T>,
    tag: BuildInfo,
    earlier: S,
    first: Result<T>,
    later: S,
    second: Result<T>,
)
    requires
        tells_constants(ask, info),
        told(ask(earlier), tag, first),
        told(ask(later), tag, second),
    ensures
        second == first,
{
}

/// The digit with a value, which has to be less than ten.
pub open spec fn digit(value: nat) -> char {
    ((0x30 + value) as u8) as char
}

/// The value of a digit.
pub open spec fn digit_value(c: char) -> Option<nat> {
    if '0' <= c <= '9' {
        Some((c as u32 - 0x30) as nat)
    } else {
        None
    }
}

/// A number in decimal digits.
pub open spec fn decimal(n: nat) -> Seq<char>
    decreases n,
{
    if n < 10 {
        seq![digit(n)]
    } else {
        decimal(n / 10).push(digit(n % 10))
    }
}

/// The number that decimal digits stand for.
pub open spec fn number(digits: Seq<char>) -> nat
    decreases digits.len(),
{
    if digits.len() == 0 {
        0
    } else {
        number(digits.drop_last()) * 10 + match digit_value(digits.last()) {
            Some(value) => value,
            None => 0,
        }
    }
}

/// How many digits there are in `text` from position `i` on.
pub open spec fn digits_at(text: Seq<char>, i: int) -> nat
    decreases text.len() - i,
{
    if 0 <= i < text.len() && digit_value(text[i]) is Some {
        1 + digits_at(text, i + 1)
    } else {
        0
    }
}

/// The decimal number in `text` from position `i` on.
pub open spec fn number_at(text: Seq<char>, i: int) -> nat {
    number(text.subrange(i, i + digits_at(text, i)))
}

/// A version of the engine.
pub ghost struct Version {
    /// The major version number.
    pub major: usize,
    /// The minor version number.
    pub minor: usize,
    /// The patch version number.
    pub patch: usize,
    /// What follows the numbers, e.g. "-dev+abcdef".
    pub suffix: Seq<char>,
}

impl Version {
    /// What follows the numbers does not start with a digit.
    pub open spec fn wf(self) -> bool {
        self.suffix.len() > 0 ==> digit_value(self.suffix[0]) is None
    }

    /// The version as text: the numbers with dots between them, and what follows.
    pub open spec fn text(self) -> Seq<char> {
        decimal(self.major as nat) + seq!['.'] + decimal(self.minor as nat) + seq!['.'] + decimal(
            self.patch as nat,
        ) + self.suffix
    }
}

/// `query` answers with the text of `version`.
pub open spec fn tells_version_text<F: FnOnce(BuildInfo) -> Reply<Vec<u8>>>(
    query: F,
    version: Version,
) -> bool {
    forall|reply: Reply<Vec<u8>>| #[trigger]
        query.ensures((BuildInfo::VersionString,), reply) ==> {
            &&& reply.outcome() is Ok
            &&& vstd::utf8::valid_utf8(reply.value@)
            &&& vstd::utf8::decode_utf8(reply.value@) == version.text()
        }
}

/// `query` answers with the numbers of `version`.
pub open spec fn tells_version_numbers<F: FnOnce(BuildInfo) -> Reply<usize>>(
    query: F,
    version: Version,
) -> bool {
    forall|tag: BuildInfo, reply: Reply<usize>| #[trigger]
        query.ensures((tag,), reply) ==> {
            &&& tag == BuildInfo::VersionMajor ==> reply.outcome() == Ok::<usize, Error>(
                version.major,
            )
            &&& tag == BuildInfo::VersionMinor ==> reply.outcome() == Ok::<usize, Error>(
                version.minor,
            )
            &&& tag == BuildInfo::VersionPatch ==> reply.outcome() == Ok::<usize, Error>(
                version.patch,
            )
        }
}

/// A number in decimal digits is one or more digits, and is read back from them.
pub proof fn decimals_read_back(n: nat)
    ensures
        decimal(n).len() > 0,
        forall|i: int| 0 <= i < decimal(n).len() ==> digit_value(#[trigger] decimal(n)[i]) is Some,
        number(decimal(n)) == n,
    decreases n,
{
    if n < 10 {
        let s = decimal(n);
        assert(number(s.drop_last()) == 0);
        assert(digit_value(s.last()) == Some(n));
    } else {
        decimals_read_back(n / 10);
        assert(decimal(n).drop_last() =~= decimal(n / 10));
        assert(digit_value(digit(n % 10)) == Some(n % 10));
    }
}

/// The digits from position `i` on are those up to position `end`.
proof fn lemma_digits_end(text: Seq<char>, i: int, end: int)
    requires
        0 <= i <= end <= text.len(),
        forall|j: int| i <= j < end ==> digit_value(#[trigger] text[j]) is Some,
        end < text.len() ==> digit_value(text[end]) is None,
    ensures
        digits_at(text, i) == end - i,
    decreases end - i,
{
    if i < end {
        lemma_digits_end(text, i + 1, end);
    }
}

/// A number in the middle of a text is read back, if no digit follows it.
proof fn lemma_number_at(text: Seq<char>, front: Seq<char>, n: nat, rest: Seq<char>)
    requires
        text == front + decimal(n) + rest,
        rest.len() > 0 ==> digit_value(rest[0]) is None,
    ensures
        digits_at(text, front.len() as int) == decimal(n).len(),
        number_at(text, front.len() as int) == n,
{
    decimals_read_back(n);
    let start = front.len() as int;
    let end = start + decimal(n).len();
    assert forall|j: int| start <= j < end implies digit_value(#[trigger] text[j]) is Some by {
        assert(text[j] == decimal(n)[j - start]);
    }
    if end < text.len() {
        assert(text[end] == rest[0]);
    }
    lemma_digits_end(text, start, end);
    assert(text.subrange(start, end) =~= decimal(n));
}

/// The version numbers are those of the version string: the major one stands before its first dot,
/// the minor one before the second, and the patch one after that.
pub proof fn the_version_numbers_are_in_the_string<
    F: FnOnce(BuildInfo) -> Reply<Vec<u8>>,
    G: FnOnce(BuildInfo) -> Reply<usize>,
>(
    ask_text: F,
    ask_number: G,
    version: Version,
    text: String,
    major: Result<usize>,
    minor: Result<usize>,
    patch: Result<usize>,
)
    requires
        version.wf(),
        tells_version_text(ask_text, version),
        tells_version_numbers(ask_number, version),
        told_text(ask_text, BuildInfo::VersionString, Ok(text)),
        told(ask_number, BuildInfo::VersionMajor, major),
        told(ask_number, BuildInfo::VersionMinor, minor),
        told(ask_number, BuildInfo::VersionPatch, patch),
    ensures
        ({
            let first = digits_at(text@, 0) as int;
            let second = first + 1 + digits_at(text@, first + 1);
            &&& 0 < first < second < text@.len()
            &&& text@[first] == '.'
            &&& text@[second] == '.'
            &&& major matches Ok(n) && n == number_at(text@, 0)
            &&& minor matches Ok(n) && n == number_at(text@, first + 1)
            &&& patch matches Ok(n) && n == number_at(text@, second + 1)
        }),
{
    let major = version.major as nat;
    let minor = version.minor as nat;
    let patch = version.patch as nat;
    let dot = seq!['.'];
    let s = version.text();
    assert(text@ == s);
    decimals_read_back(major);
    decimals_read_back(minor);
    let rest = dot + decimal(minor) + dot + decimal(patch) + version.suffix;
    assert(s =~= Seq::<char>::empty() + decimal(major) + rest);
    lemma_number_at(s, Seq::empty(), major, rest);
    let first = decimal(major).len() as int;
    let front = decimal(major) + dot;
    let rest = dot + decimal(patch) + version.suffix;
    assert(s =~= front + decimal(minor) + rest);
    lemma_number_at(s, front, minor, rest);
    let second = first + 1 + decimal(minor).len();
    let front = decimal(major) + dot + decimal(minor) + dot;
    assert(s =~= front + decimal(patch) + version.suffix);
    lemma_number_at(s, front, patch, version.suffix);
    assert(s[first] == '.');
    assert(s[second] == '.');
}

} // verus!
