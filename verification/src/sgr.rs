//! Parsing and handling SGR (Select Graphic Rendition) escape sequences.
use crate::error::{from_result, outcome, Error, Result};
use crate::memory::{addr_of, created, new_object, Allocator, NewReply, Object, DEFAULT_ALLOCATOR};
use crate::style::{PaletteIndex, RgbColor, Underline};
use vstd::prelude::*;

verus! {

/// SGR (Select Graphic Rendition) attribute parser.
///
/// SGR sequences set styling attributes such as bold, italic, underline and colors. In
/// `ESC[1;31m` the list `1;31` is the SGR attribute list. The parser takes such a list and hands
/// out one attribute after the other. It supports both semicolon and colon separators, possibly
/// mixed, and the various color formats.
#[derive(Debug)]
pub struct Parser {
    inner: Object,
}

impl Parser {
    /// The address of the parser.
    pub closed spec fn addr(&self) -> usize {
        self.inner.addr()
    }

    /// The address that a constructor's result holds, or its error.
    pub open spec fn addr_of(res: Result<Self>) -> Result<usize> {
        match res {
            Ok(parser) => Ok(parser.addr()),
            Err(e) => Err(e),
        }
    }

    /// Create a new SGR parser.
    pub fn new(create: impl FnOnce(usize) -> NewReply) -> (res: Result<Self>)
        requires
            create.requires((DEFAULT_ALLOCATOR,)),
        ensures
            created(create, DEFAULT_ALLOCATOR, Self::addr_of(res)),
    {
        Self::new_inner(DEFAULT_ALLOCATOR, create)
    }

    /// Create a new SGR parser with a custom allocator.
    pub fn new_with_alloc(
        alloc: &Allocator,
        create: impl FnOnce(usize) -> NewReply,
    ) -> (res: Result<Self>)
        requires
            create.requires((alloc.addr(),)),
        ensures
            created(create, alloc.addr(), Self::addr_of(res)),
    {
        Self::new_inner(alloc.to_raw(), create)
    }

    fn new_inner<F: FnOnce(usize) -> NewReply>(alloc: usize, create: F) -> (res: Result<Self>)
        requires
            create.requires((alloc,)),
        ensures
            created(create, alloc, Self::addr_of(res)),
    {
        match new_object(alloc, create) {
            Ok(inner) => Ok(Parser { inner }),
            Err(e) => Err(e),
        }
    }

    /// The address of the parser.
    pub fn as_raw(&self) -> (res: usize)
        ensures
            res == self.addr(),
    {
        self.inner.as_raw()
    }

    /// Set SGR parameters for parsing.
    ///
    /// Parameters are the numeric values of a CSI SGR sequence (for `ESC[1;31m` they are
    /// `[1, 31]`). The separators, if given, say for each parameter whether a semicolon or a colon
    /// follows it; any other byte counts as a semicolon. Without them every separator is a
    /// semicolon. The parser then starts over from the beginning.
    ///
    /// There have to be as many separators as parameters.
    pub fn set_params<S>(
        &mut self,
        params: &[u16],
        separators: Option<&[u8]>,
        engine: &mut S,
        set: impl FnOnce(&S, usize, &[u16], Option<&[u8]>) -> (S, i32),
    ) -> (res: Result<()>)
        requires
            separators matches Some(seps) ==> seps@.len() == params@.len(),
            set.requires((&*old(engine), old(self).addr(), params, separators)),
        ensures
            final(self).addr() == old(self).addr(),
            params_set(
                set,
                old(self).addr(),
                params,
                separators,
                *old(engine),
                *final(engine),
                res,
            ),
    {
        let (after, code) = set(&*engine, self.inner.as_raw(), params, separators);
        *engine = after;
        from_result(code)
    }

    /// Get the next SGR attribute.
    ///
    /// Call this repeatedly until it returns `None` to process all attributes of the list.
    pub fn next<'p, S>(
        &mut self,
        engine: &mut S,
        next: impl FnOnce(&S, usize) -> (S, Option<RawAttribute<'p>>),
    ) -> (res: Result<Option<Attribute<'p>>>)
        requires
            next.requires((&*old(engine), old(self).addr())),
        ensures
            final(self).addr() == old(self).addr(),
            advanced(next, old(self).addr(), *old(engine), *final(engine), res),
    {
        let (after, answer) = next(&*engine, self.inner.as_raw());
        *engine = after;
        match answer {
            Some(raw) => match Attribute::from_raw(raw) {
                Ok(attribute) => Ok(Some(attribute)),
                Err(e) => Err(e),
            },
            None => Ok(None),
        }
    }

    /// Reset the parser to the beginning of the parameter list, without clearing it.
    pub fn reset<S>(&mut self, engine: &mut S, reset: impl FnOnce(&S, usize) -> S)
        requires
            reset.requires((&*old(engine), old(self).addr())),
        ensures
            final(self).addr() == old(self).addr(),
            reset.ensures((&*old(engine), old(self).addr()), *final(engine)),
    {
        *engine = reset(&*engine, self.inner.as_raw());
    }
}

/// `res` is what setting the parameters of `parser` comes to, and the engine goes from `before` to
/// `after`.
pub open spec fn params_set<S, F: FnOnce(&S, usize, &[u16], Option<&[u8]>) -> (S, i32)>(
    set: F,
    parser: usize,
    params: &[u16],
    separators: Option<&[u8]>,
    before: S,
    after: S,
    res: Result<()>,
) -> bool {
    exists|code: i32| #[trigger]
        set.ensures((&before, parser, params, separators), (after, code)) && res == outcome(code)
}

/// `res` is what asking `parser` for the next attribute comes to, and the engine goes from `before`
/// to `after`.
pub open spec fn advanced<'p, S, F: FnOnce(&S, usize) -> (S, Option<RawAttribute<'p>>)>(
    next: F,
    parser: usize,
    before: S,
    after: S,
    res: Result<Option<Attribute<'p>>>,
) -> bool {
    exists|answer: Option<RawAttribute<'p>>| #[trigger]
        next.ensures((&before, parser), (after, answer)) && res == next_outcome(answer)
}

/// What the parser's answer to the question for the next attribute comes to.
pub open spec fn next_outcome<'p>(answer: Option<RawAttribute<'p>>) -> Result<
    Option<Attribute<'p>>,
> {
    match answer {
        Some(raw) => match Attribute::decoded(raw) {
            Ok(attribute) => Ok(Some(attribute)),
            Err(e) => Err(e),
        },
        None => Ok(None),
    }
}

/// An SGR attribute.
#[derive(Clone, Copy, Debug, PartialEq, Eq)]
pub enum Attribute<'p> {
    /// Reset every attribute.
    Unset,
    /// Parameters that are not understood.
    Unknown(Unknown<'p>),
    /// Bold text.
    Bold,
    /// No bold and no faint text.
    ResetBold,
    /// Italic text.
    Italic,
    /// No italic text.
    ResetItalic,
    /// Faint text.
    Faint,
    /// An underline of the given style.
    Underline(Underline),
    /// A direct color for the underline.
    UnderlineColor(RgbColor),
    /// A palette color for the underline.
    UnderlineColor256(PaletteIndex),
    /// No color of its own for the underline.
    ResetUnderlineColor,
    /// A line over the text.
    Overline,
    /// No line over the text.
    ResetOverline,
    /// Blinking text.
    Blink,
    /// No blinking text.
    ResetBlink,
    /// Foreground and background swapped.
    Inverse,
    /// Foreground and background not swapped.
    ResetInverse,
    /// Text that is not shown.
    Invisible,
    /// Text that is shown.
    ResetInvisible,
    /// A line through the text.
    Strikethrough,
    /// No line through the text.
    ResetStrikethrough,
    /// A direct foreground color.
    DirectColorFg(RgbColor),
    /// A direct background color.
    DirectColorBg(RgbColor),
    /// A background color of the first eight.
    Bg8(PaletteIndex),
    /// A foreground color of the first eight.
    Fg8(PaletteIndex),
    /// The default foreground color.
    ResetFg,
    /// The default background color.
    ResetBg,
    /// A bright background color.
    BrightBg8(PaletteIndex),
    /// A bright foreground color.
    BrightFg8(PaletteIndex),
    /// A background color of the palette.
    Bg256(PaletteIndex),
    /// A foreground color of the palette.
    Fg256(PaletteIndex),
}

/// Parameters that the parser does not understand.
#[derive(Clone, Copy, Debug, PartialEq, Eq)]
pub struct Unknown<'p> {
    /// The whole parameter list.
    pub full: &'p [u16],
    /// The part of the list that was not understood.
    pub partial: &'p [u16],
}

/// An attribute as the engine reports it: a tag, and one field for each kind of payload, of which
/// the tag says which one counts.
#[derive(Clone, Copy, Debug)]
pub struct RawAttribute<'p> {
    /// The number of the attribute.
    pub tag: u32,
    /// The parameters, for an attribute that is not understood.
    pub unknown: Unknown<'p>,
    /// The number of the underline style, for an underline.
    pub underline: u32,
    /// The components, for a direct color.
    pub color: RgbColor,
    /// The index, for a color of the palette.
    pub index: u8,
}

impl<'p> Attribute<'p> {
    /// The attribute that `raw` stands for.
    pub open spec fn decoded(raw: RawAttribute<'p>) -> Result<Self> {
        match raw.tag {
            0 => Ok(Attribute::Unset),
            1 => Ok(Attribute::Unknown(raw.unknown)),
            2 => Ok(Attribute::Bold),
            3 => Ok(Attribute::ResetBold),
            4 => Ok(Attribute::Italic),
            5 => Ok(Attribute::ResetItalic),
            6 => Ok(Attribute::Faint),
            7 => match Underline::decoded(raw.underline) {
                Ok(underline) => Ok(Attribute::Underline(underline)),
                Err(e) => Err(e),
            },
            8 => Ok(Attribute::UnderlineColor(raw.color)),
            9 => Ok(Attribute::UnderlineColor256(PaletteIndex(raw.index))),
            10 => Ok(Attribute::ResetUnderlineColor),
            11 => Ok(Attribute::Overline),
            12 => Ok(Attribute::ResetOverline),
            13 => Ok(Attribute::Blink),
            14 => Ok(Attribute::ResetBlink),
            15 => Ok(Attribute::Inverse),
            16 => Ok(Attribute::ResetInverse),
            17 => Ok(Attribute::Invisible),
            18 => Ok(Attribute::ResetInvisible),
            19 => Ok(Attribute::Strikethrough),
            20 => Ok(Attribute::ResetStrikethrough),
            21 => Ok(Attribute::DirectColorFg(raw.color)),
            22 => Ok(Attribute::DirectColorBg(raw.color)),
            23 => Ok(Attribute::Bg8(PaletteIndex(raw.index))),
            24 => Ok(Attribute::Fg8(PaletteIndex(raw.index))),
            25 => Ok(Attribute::ResetFg),
            26 => Ok(Attribute::ResetBg),
            27 => Ok(Attribute::BrightBg8(PaletteIndex(raw.index))),
            28 => Ok(Attribute::BrightFg8(PaletteIndex(raw.index))),
            29 => Ok(Attribute::Bg256(PaletteIndex(raw.index))),
            30 => Ok(Attribute::Fg256(PaletteIndex(raw.index))),
            _ => Err(Error::InvalidValue),
        }
    }

    /// The attribute that `value` stands for; fails on a tag or an underline style that is not
    /// known.
    pub fn from_raw(value: RawAttribute<'p>) -> (res: Result<Self>)
        ensures
            res == Self::decoded(value),
    {
        match value.tag {
            0 => Ok(Attribute::Unset),
            1 => Ok(Attribute::Unknown(value.unknown)),
            2 => Ok(Attribute::Bold),
            3 => Ok(Attribute::ResetBold),
            4 => Ok(Attribute::Italic),
            5 => Ok(Attribute::ResetItalic),
            6 => Ok(Attribute::Faint),
            7 => Ok(Attribute::Underline(Underline::from_raw(value.underline)?)),
            8 => Ok(Attribute::UnderlineColor(value.color)),
            9 => Ok(Attribute::UnderlineColor256(PaletteIndex(value.index))),
            10 => Ok(Attribute::ResetUnderlineColor),
            11 => Ok(Attribute::Overline),
            12 => Ok(Attribute::ResetOverline),
            13 => Ok(Attribute::Blink),
            14 => Ok(Attribute::ResetBlink),
            15 => Ok(Attribute::Inverse),
            16 => Ok(Attribute::ResetInverse),
            17 => Ok(Attribute::Invisible),
            18 => Ok(Attribute::ResetInvisible),
            19 => Ok(Attribute::Strikethrough),
            20 => Ok(Attribute::ResetStrikethrough),
            21 => Ok(Attribute::DirectColorFg(value.color)),
            22 => Ok(Attribute::DirectColorBg(value.color)),
            23 => Ok(Attribute::Bg8(PaletteIndex(value.index))),
            24 => Ok(Attribute::Fg8(PaletteIndex(value.index))),
            25 => Ok(Attribute::ResetFg),
            26 => Ok(Attribute::ResetBg),
            27 => Ok(Attribute::BrightBg8(PaletteIndex(value.index))),
            28 => Ok(Attribute::BrightFg8(PaletteIndex(value.index))),
            29 => Ok(Attribute::Bg256(PaletteIndex(value.index))),
            30 => Ok(Attribute::Fg256(PaletteIndex(value.index))),
            _ => Err(Error::InvalidValue),
        }
    }
}

/// An attribute comes out of everything but a tag that is not known and an underline of a style
/// that is not known.
pub proof fn known_attributes_decode<'p>(raw: RawAttribute<'p>)
    ensures
        Attribute::decoded(raw) is Ok <==> raw.tag <= 30 && (raw.tag == 7 ==> raw.underline <= 5),
{
}

/// Attributes with different tags are different.
pub proof fn tags_are_distinct<'p>(a: RawAttribute<'p>, b: RawAttribute<'p>)
    requires
        Attribute::decoded(a) is Ok,
        Attribute::decoded(a) == Attribute::decoded(b),
    ensures
        a.tag == b.tag,
{
}

/// An attribute carries what the engine reported with it, unchanged: a direct color its three
/// components, a color of the palette its index, an underline its style, and parameters that are not
/// understood the two lists. What else was reported does not count.
pub proof fn attributes_carry_what_was_reported<'p>(
    raw: RawAttribute<'p>,
    color: RgbColor,
    index: PaletteIndex,
    line: Underline,
    unknown: Unknown<'p>,
)
    ensures
        ({
            let res = Attribute::decoded(raw);
            let same = raw.color.r == color.r && raw.color.g == color.g && raw.color.b == color.b;
            let at = raw.index == index.0;
            &&& raw.tag == 8 ==> (res == Ok::<Attribute, Error>(Attribute::UnderlineColor(color))
                <==> same)
            &&& raw.tag == 21 ==> (res == Ok::<Attribute, Error>(Attribute::DirectColorFg(color))
                <==> same)
            &&& raw.tag == 22 ==> (res == Ok::<Attribute, Error>(Attribute::DirectColorBg(color))
                <==> same)
            &&& raw.tag == 9 ==> (res == Ok::<Attribute, Error>(
                Attribute::UnderlineColor256(index),
            ) <==> at)
            &&& raw.tag == 23 ==> (res == Ok::<Attribute, Error>(Attribute::Bg8(index)) <==> at)
            &&& raw.tag == 24 ==> (res == Ok::<Attribute, Error>(Attribute::Fg8(index)) <==> at)
            &&& raw.tag == 27 ==> (res == Ok::<Attribute, Error>(Attribute::BrightBg8(index))
                <==> at)
            &&& raw.tag == 28 ==> (res == Ok::<Attribute, Error>(Attribute::BrightFg8(index))
                <==> at)
            &&& raw.tag == 29 ==> (res == Ok::<Attribute, Error>(Attribute::Bg256(index)) <==> at)
            &&& raw.tag == 30 ==> (res == Ok::<Attribute, Error>(Attribute::Fg256(index)) <==> at)
            &&& raw.tag == 7 ==> (res == Ok::<Attribute, Error>(Attribute::Underline(line))
                <==> raw.underline == line.number())
            &&& raw.tag == 1 ==> (res == Ok::<Attribute, Error>(Attribute::Unknown(unknown))
                <==> raw.unknown == unknown)
        }),
{
}

/// Which attribute it is depends on the tag alone, except that an underline needs a style that is
/// known: two reports with the same tag give attributes of the same kind, and two reports with
/// different tags never do. The kinds are numbered as [`Attribute::tag`] says.
pub proof fn the_tag_is_the_kind<'p>(raw: RawAttribute<'p>)
    ensures
        Attribute::decoded(raw) matches Ok(attribute) ==> attribute.tag() == raw.tag,
        raw.tag <= 30 && raw.tag != 7 ==> Attribute::decoded(raw) is Ok,
        raw.tag == 7 ==> (Attribute::decoded(raw) is Ok <==> raw.underline <= 5),
        raw.tag > 30 ==> Attribute::decoded(raw) == Err::<Attribute, Error>(Error::InvalidValue),
        raw.tag == 7 && raw.underline > 5 ==> Attribute::decoded(raw) == Err::<Attribute, Error>(
            Error::InvalidValue,
        ),
{
}

impl<'p> Attribute<'p> {
    /// The number of the kind of attribute in the engine's interface.
    pub open spec fn tag(self) -> u32 {
        match self {
            Attribute::Unset => 0,
            Attribute::Unknown(_) => 1,
            Attribute::Bold => 2,
            Attribute::ResetBold => 3,
            Attribute::Italic => 4,
            Attribute::ResetItalic => 5,
            Attribute::Faint => 6,
            Attribute::Underline(_) => 7,
            Attribute::UnderlineColor(_) => 8,
            Attribute::UnderlineColor256(_) => 9,
            Attribute::ResetUnderlineColor => 10,
            Attribute::Overline => 11,
            Attribute::ResetOverline => 12,
            Attribute::Blink => 13,
            Attribute::ResetBlink => 14,
            Attribute::Inverse => 15,
            Attribute::ResetInverse => 16,
            Attribute::Invisible => 17,
            Attribute::ResetInvisible => 18,
            Attribute::Strikethrough => 19,
            Attribute::ResetStrikethrough => 20,
            Attribute::DirectColorFg(_) => 21,
            Attribute::DirectColorBg(_) => 22,
            Attribute::Bg8(_) => 23,
            Attribute::Fg8(_) => 24,
            Attribute::ResetFg => 25,
            Attribute::ResetBg => 26,
            Attribute::BrightBg8(_) => 27,
            Attribute::BrightFg8(_) => 28,
            Attribute::Bg256(_) => 29,
            Attribute::Fg256(_) => 30,
        }
    }
}

//---------------------------------------
// Runs of a parser
//---------------------------------------
/// What the engine keeps of a parser.
pub ghost struct ParserState {
    /// The parameters.
    pub params: Seq<u16>,
    /// Which of them are followed by a colon.
    pub colons: Seq<bool>,
    /// How far the parser has come.
    pub at: nat,
}

/// Which of the parameters are followed by a colon: any other separator counts as a semicolon, and
/// so do none at all.
pub open spec fn colons_of(params: Seq<u16>, separators: Option<&[u8]>) -> Seq<bool> {
    match separators {
        Some(seps) => Seq::new(params.len(), |i: int| seps@[i] == 0x3a),
        None => Seq::new(params.len(), |i: int| false),
    }
}

/// `set` keeps the parameters and their separators in the parser, which starts over. `kept` says
/// what the engine keeps.
pub open spec fn takes_params<S, F: FnOnce(&S, usize, &[u16], Option<&[u8]>) -> (S, i32)>(
    set: F,
    kept: spec_fn(S, usize) -> ParserState,
) -> bool {
    forall|
        before: &S,
        parser: usize,
        params: &[u16],
        separators: Option<&[u8]>,
        out: (S, i32),
    | #[trigger]
        set.ensures((before, parser, params, separators), out) && outcome(out.1) is Ok ==> kept(
            out.0,
            parser,
        ) == (ParserState {
            params: params@,
            colons: colons_of(params@, separators),
            at: 0,
        })
}

/// What `next` answers, and how far the parser is then, depends on what the engine keeps of it, as
/// `parse` says; the parameters stay.
pub open spec fn parses<'p, S, F: FnOnce(&S, usize) -> (S, Option<RawAttribute<'p>>)>(
    next: F,
    kept: spec_fn(S, usize) -> ParserState,
    parse: spec_fn(ParserState) -> (nat, Option<RawAttribute<'p>>),
) -> bool {
    forall|before: &S, parser: usize, out: (S, Option<RawAttribute<'p>>)| #[trigger]
        next.ensures((before, parser), out) ==> {
            let then = kept(*before, parser);
            &&& kept(out.0, parser) == (ParserState { at: parse(then).0, ..then })
            &&& out.1 == parse(then).1
        }
}

/// `reset` puts the parser back to the beginning, and the parameters stay.
pub open spec fn rewinds<S, F: FnOnce(&S, usize) -> S>(
    reset: F,
    kept: spec_fn(S, usize) -> ParserState,
) -> bool {
    forall|before: &S, parser: usize, after: S| #[trigger]
        reset.ensures((before, parser), after) ==> kept(after, parser) == (ParserState {
            at: 0,
            ..kept(*before, parser)
        })
}

/// Asking `parser` for the next attribute again and again gives `results`, and the engine goes from
/// `before` to `after`.
pub open spec fn run<'p, S, F: Fn(&S, usize) -> (S, Option<RawAttribute<'p>>)>(
    next: F,
    parser: usize,
    before: S,
    after: S,
    results: Seq<Result<Option<Attribute<'p>>>>,
) -> bool
    decreases results.len(),
{
    if results.len() == 0 {
        after == before
    } else {
        exists|between: S|
            run(next, parser, before, between, results.drop_last()) && #[trigger] advanced(
                next,
                parser,
                between,
                after,
                results.last(),
            )
    }
}

/// Two parsers of which the engine keeps the same give the same results.
proof fn lemma_same_run<'p, S, F: Fn(&S, usize) -> (S, Option<RawAttribute<'p>>)>(
    kept: spec_fn(S, usize) -> ParserState,
    parse: spec_fn(ParserState) -> (nat, Option<RawAttribute<'p>>),
    next: F,
    p: usize,
    p_before: S,
    p_after: S,
    p_results: Seq<Result<Option<Attribute<'p>>>>,
    q: usize,
    q_before: S,
    q_after: S,
    q_results: Seq<Result<Option<Attribute<'p>>>>,
)
    requires
        parses(next, kept, parse),
        kept(p_before, p) == kept(q_before, q),
        run(next, p, p_before, p_after, p_results),
        run(next, q, q_before, q_after, q_results),
        p_results.len() == q_results.len(),
    ensures
        p_results == q_results,
        kept(p_after, p) == kept(q_after, q),
        kept(p_after, p).params == kept(p_before, p).params,
        kept(p_after, p).colons == kept(p_before, p).colons,
    decreases p_results.len(),
{
    if p_results.len() == 0 {
        assert(p_results =~= q_results);
    } else {
        let p_between = choose|between: S|
            run(next, p, p_before, between, p_results.drop_last()) && #[trigger] advanced(
                next,
                p,
                between,
                p_after,
                p_results.last(),
            );
        let q_between = choose|between: S|
            run(next, q, q_before, between, q_results.drop_last()) && #[trigger] advanced(
                next,
                q,
                between,
                q_after,
                q_results.last(),
            );
        lemma_same_run(
            kept,
            parse,
            next,
            p,
            p_before,
            p_between,
            p_results.drop_last(),
            q,
            q_before,
            q_between,
            q_results.drop_last(),
        );
        assert(p_results =~= p_results.drop_last().push(p_results.last()));
        assert(q_results =~= q_results.drop_last().push(q_results.last()));
    }
}

/// Separators that are not colons count as semicolons, and so do no separators: with either, the
/// same parameters give the same attributes.
pub proof fn no_separators_are_semicolons<
    'p,
    S,
    F: FnOnce(&S, usize, &[u16], Option<&[u8]>) -> (S, i32),
    N: Fn(&S, usize) -> (S, Option<RawAttribute<'p>>),
>(
    kept: spec_fn(S, usize) -> ParserState,
    parse: spec_fn(ParserState) -> (nat, Option<RawAttribute<'p>>),
    set: F,
    next: N,
    params: &[u16],
    seps: &[u8],
    p: usize,
    p_made: S,
    p_set: S,
    p_after: S,
    p_results: Seq<Result<Option<Attribute<'p>>>>,
    q: usize,
    q_made: S,
    q_set: S,
    q_after: S,
    q_results: Seq<Result<Option<Attribute<'p>>>>,
)
    requires
        takes_params(set, kept),
        parses(next, kept, parse),
        seps@.len() == params@.len(),
        forall|i: int| 0 <= i < seps@.len() ==> seps@[i] != 0x3a,
        params_set(set, p, params, None, p_made, p_set, Ok(())),
        params_set(set, q, params, Some(seps), q_made, q_set, Ok(())),
        run(next, p, p_set, p_after, p_results),
        run(next, q, q_set, q_after, q_results),
        p_results.len() == q_results.len(),
    ensures
        p_results == q_results,
{
    assert(colons_of(params@, None) =~= colons_of(params@, Some(seps)));
    lemma_same_run(
        kept,
        parse,
        next,
        p,
        p_set,
        p_after,
        p_results,
        q,
        q_set,
        q_after,
        q_results,
    );
}

/// After a reset the parser gives the same attributes as right after the parameters were set,
/// however far it had come, and a second reset changes nothing.
pub proof fn a_reset_starts_over<
    'p,
    S,
    F: FnOnce(&S, usize, &[u16], Option<&[u8]>) -> (S, i32),
    N: Fn(&S, usize) -> (S, Option<RawAttribute<'p>>),
    R: Fn(&S, usize) -> S,
>(
    kept: spec_fn(S, usize) -> ParserState,
    parse: spec_fn(ParserState) -> (nat, Option<RawAttribute<'p>>),
    set: F,
    next: N,
    reset: R,
    params: &[u16],
    separators: Option<&[u8]>,
    parser: usize,
    made: S,
    start: S,
    first_after: S,
    first: Seq<Result<Option<Attribute<'p>>>>,
    midway: S,
    some: Seq<Result<Option<Attribute<'p>>>>,
    once: S,
    again_after: S,
    again: Seq<Result<Option<Attribute<'p>>>>,
    twice: S,
    third_after: S,
    third: Seq<Result<Option<Attribute<'p>>>>,
)
    requires
        takes_params(set, kept),
        parses(next, kept, parse),
        rewinds(reset, kept),
        params_set(set, parser, params, separators, made, start, Ok(())),
        run(next, parser, start, first_after, first),
        run(next, parser, start, midway, some),
        reset.ensures((&midway, parser), once),
        run(next, parser, once, again_after, again),
        reset.ensures((&once, parser), twice),
        run(next, parser, twice, third_after, third),
        first.len() == again.len() == third.len(),
    ensures
        again == first,
        third == first,
{
    lemma_same_run(
        kept,
        parse,
        next,
        parser,
        start,
        midway,
        some,
        parser,
        start,
        midway,
        some,
    );
    assert(kept(once, parser) == kept(start, parser));
    assert(kept(twice, parser) == kept(start, parser));
    lemma_same_run(
        kept,
        parse,
        next,
        parser,
        once,
        again_after,
        again,
        parser,
        start,
        first_after,
        first,
    );
    lemma_same_run(
        kept,
        parse,
        next,
        parser,
        twice,
        third_after,
        third,
        parser,
        start,
        first_after,
        first,
    );
}

} // verus!
