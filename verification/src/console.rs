//! Coloured terminal text, and the traits that add context to errors

use vstd::prelude::*;
use vstd::string::*;

verus! {

/// Convert a non-standard error input into a traced error. This is usually done on a
/// `Result<OkType, ...>` but can also be done on an `Option<...>` where the option's
/// `Some` variant holds the error
pub trait ErrorResult<ErrKind, ErrOutput, OkType>: Sized {
    /// Convert an error to a trace without context
    ///
    /// # Errors
    /// - Data type contains an error (e.g. Result is Err(..))
    fn into_trace(self, kind: ErrKind) -> Result<OkType, ErrOutput>;
}

/// Add more context to an error for diagnostics, this is usually the name of something,
/// i.e., if an error occurs with a specific service we add the service's name as context
pub trait ExtendWithContext<OkType, ErrType>: Sized {
    /// Add context to an existing trace error
    ///
    /// # Errors
    /// - Result is of error variant
    fn context(self, context: &str) -> Result<OkType, ErrType>;
}

/// Terminal colours and text styles
#[derive(Copy, Clone, Debug, PartialEq, Eq, Structural)]
pub enum Colour {
    Reset,
    Bold,
    Red,
    Orange,
    Green,
}

impl Colour {
    pub open spec fn spec_code(self) -> Seq<char> {
        match self {
            Colour::Reset => "\x1b[0m"@,
            Colour::Bold => "\x1b[1m"@,
            Colour::Red => "\x1b[1;31m"@,
            Colour::Orange => "\x1b[1;33m"@,
            Colour::Green => "\x1b[1;92m"@,
        }
    }

    /// The escape sequence that switches the terminal to this colour
    pub fn code(self) -> (r: &'static str)
        ensures
            r@ == self.spec_code(),
    {
        match self {
            Colour::Reset => "\x1b[0m",
            Colour::Bold => "\x1b[1m",
            Colour::Red => "\x1b[1;31m",
            Colour::Orange => "\x1b[1;33m",
            Colour::Green => "\x1b[1;92m",
        }
    }
}

/// The escape sequences of several colours, one after the other
pub open spec fn codes(colours: Seq<Colour>) -> Seq<char>
    decreases colours.len(),
{
    if colours.len() == 0 {
        Seq::empty()
    } else {
        codes(colours.drop_last()) + colours.last().spec_code()
    }
}

/// What a formatted text prints: its colours, the text, then a reset unless
/// the reset is switched off
pub open spec fn resolved(colours: Seq<Colour>, inner: Seq<char>, dont_reset: bool) -> Seq<char> {
    codes(colours) + inner + if dont_reset {
        Seq::empty()
    } else {
        Colour::Reset.spec_code()
    }
}

fn resolve_parts(colours: &[Colour], inner: &str, dont_reset: bool) -> (r: String)
    ensures
        r@ == resolved(colours@, inner@, dont_reset),
{
    let mut out = String::new();
    let mut i: usize = 0;
    while i < colours.len()
        invariant
            0 <= i <= colours.len(),
            out@ == codes(colours@.take(i as int)),
        decreases colours.len() - i,
    {
        out.append(colours[i].code());
        proof {
            assert(colours@.take(i + 1).drop_last() =~= colours@.take(i as int));
        }
        i = i + 1;
    }
    proof {
        assert(colours@.take(i as int) =~= colours@);
    }
    out.append(inner);
    if !dont_reset {
        out.append(Colour::Reset.code());
    } else {
        assert(out@ + Seq::<char>::empty() =~= out@);
    }
    out
}

/// A borrowed formatted text
#[derive(Debug)]
pub struct FmtStr<'inner> {
    colours: &'inner [Colour],
    inner: &'inner str,
    dont_reset: bool,
}

/// An owned formatted text
#[derive(Clone, Debug)]
pub struct FmtString {
    colours: Vec<Colour>,
    inner: String,
    dont_reset: bool,
}

impl<'inner> View for FmtStr<'inner> {
    type V = (Seq<Colour>, Seq<char>, bool);

    closed spec fn view(&self) -> (Seq<Colour>, Seq<char>, bool) {
        (self.colours@, self.inner@, self.dont_reset)
    }
}

impl View for FmtString {
    type V = (Seq<Colour>, Seq<char>, bool);

    closed spec fn view(&self) -> (Seq<Colour>, Seq<char>, bool) {
        (self.colours@, self.inner@, self.dont_reset)
    }
}

impl FmtString {
    pub fn new() -> (r: Self)
        ensures
            r@ == (Seq::<Colour>::empty(), Seq::<char>::empty(), false),
    {
        Self { colours: Vec::new(), inner: String::new(), dont_reset: false }
    }

    /// A plain text, without colours
    pub fn from_string(inner: String) -> (r: Self)
        ensures
            r@ == (Seq::<Colour>::empty(), inner@, false),
    {
        Self { colours: Vec::new(), inner, dont_reset: false }
    }

    /// The same text with one more colour
    pub fn colour(self, colour: Colour) -> (r: Self)
        ensures
            r@ == (self@.0.push(colour), self@.1, self@.2),
    {
        let mut s = self;
        s.push_colour(colour);
        s
    }

    pub fn bold(self) -> (r: Self)
        ensures
            r@ == (self@.0.push(Colour::Bold), self@.1, self@.2),
    {
        self.colour(Colour::Bold)
    }

    /// A borrowed view of this text
    pub fn as_ref(&self) -> (r: FmtStr<'_>)
        ensures
            r@ == self@,
    {
        FmtStr { colours: self.colours.as_slice(), inner: self.inner.as_str(), dont_reset: self.dont_reset }
    }

    /// Change whether the end of the formatted text will have a reset
    pub fn reset(self, reset: bool) -> (r: Self)
        ensures
            r@ == (self@.0, self@.1, !reset),
    {
        FmtString { colours: self.colours, inner: self.inner, dont_reset: !reset }
    }

    pub fn push_str(&mut self, string: &str)
        ensures
            final(self)@ == (old(self)@.0, old(self)@.1 + string@, old(self)@.2),
    {
        self.inner.append(string);
    }

    pub fn push_colour(&mut self, colour: Colour)
        ensures
            final(self)@ == (old(self)@.0.push(colour), old(self)@.1, old(self)@.2),
    {
        self.colours.push(colour);
    }

    /// Empties the text; the colours stay
    pub fn clear(&mut self)
        ensures
            final(self)@ == (old(self)@.0, Seq::<char>::empty(), old(self)@.2),
    {
        self.inner = String::new();
    }

    /// The text alone, without colours
    pub fn inner(&self) -> (r: &String)
        ensures
            r@ == self@.1,
    {
        &self.inner
    }

    /// What this text prints
    pub fn resolve(&self) -> (r: String)
        ensures
            r@ == resolved(self@.0, self@.1, self@.2),
    {
        self.as_ref().resolve()
    }
}

impl<'inner> FmtStr<'inner> {
    pub fn new() -> (r: FmtStr<'static>)
        ensures
            r@ == (Seq::<Colour>::empty(), Seq::<char>::empty(), false),
    {
        proof {
            reveal_strlit("");
        }
        FmtStr { colours: &[], inner: "", dont_reset: false }
    }

    /// A plain text, without colours
    pub fn from_str(inner: &'inner str) -> (r: FmtStr<'inner>)
        ensures
            r@ == (Seq::<Colour>::empty(), inner@, false),
    {
        FmtStr { colours: &[], inner, dont_reset: false }
    }

    /// Copy into a new owned formatted text
    pub fn to_owned(self) -> (r: FmtString)
        ensures
            r@ == self@,
    {
        let mut colours: Vec<Colour> = Vec::new();
        let mut i: usize = 0;
        while i < self.colours.len()
            invariant
                0 <= i <= self.colours.len(),
                colours@ == self.colours@.take(i as int),
            decreases self.colours.len() - i,
        {
            colours.push(self.colours[i]);
            proof {
                assert(self.colours@.take(i + 1) =~= self.colours@.take(i as int).push(self.colours@[i as int]));
            }
            i = i + 1;
        }
        proof {
            assert(self.colours@.take(i as int) =~= self.colours@);
        }
        FmtString { colours, inner: self.inner.to_owned(), dont_reset: self.dont_reset }
    }

    /// The text alone, without colours
    pub fn inner(&self) -> (r: &'inner str)
        ensures
            r@ == self@.1,
    {
        self.inner
    }

    /// What this text prints: the colours' codes, the text, then a reset
    pub fn resolve(&self) -> (r: String)
        ensures
            r@ == resolved(self@.0, self@.1, self@.2),
    {
        resolve_parts(self.colours, self.inner, self.dont_reset)
    }
}

/// Texts that can be coloured: a coloured text starts with one colour
pub trait Colourize: Sized {
    spec fn spec_text(&self) -> Seq<char>;

    /// The text as it is displayed
    fn text(&self) -> (r: String)
        ensures
            r@ == self.spec_text(),
    ;

    /// Create a new coloured text
    fn colour(self, colour: Colour) -> (r: FmtString)
        ensures
            r@ == (seq![colour], self.spec_text(), false),
    {
        let mut colours: Vec<Colour> = Vec::new();
        colours.push(colour);
        assert(colours@ =~= seq![colour]);
        FmtString { colours, inner: self.text(), dont_reset: false }
    }

    fn bold(self) -> (r: FmtString)
        ensures
            r@ == (seq![Colour::Bold], self.spec_text(), false),
    {
        self.colour(Colour::Bold)
    }
}

impl<'a> Colourize for &'a str {
    open spec fn spec_text(&self) -> Seq<char> {
        (*self)@
    }

    fn text(&self) -> (r: String) {
        (*self).to_owned()
    }
}

impl Colourize for String {
    open spec fn spec_text(&self) -> Seq<char> {
        self@
    }

    fn text(&self) -> (r: String) {
        self.clone()
    }
}

impl Colourize for crate::state::InitState {
    open spec fn spec_text(&self) -> Seq<char> {
        self.spec_name()
    }

    fn text(&self) -> (r: String) {
        String::from_str(self.name())
    }
}

} // verus!
