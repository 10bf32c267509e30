//! Source text that binds a wrapper type to its accessors and its release function.
//!
//! For a tuple struct whose first field is a raw pointer, three pieces of text
//! are written here: the `FromPointer` impl, the `HasPointer` impl, and the
//! definition itself followed by a `Drop` impl that calls one release function
//! behind a null check. The type's name and the release function's path are
//! put into fixed text; nothing else of the definition is looked at.

use vstd::prelude::*;
use vstd::string::*;

verus! {

/// A type definition that the parser accepted.
#[derive(Debug, PartialEq, Eq)]
pub struct Item {
    /// The name of the type.
    pub name: String,
    /// The definition, token by token, as the parser prints it.
    pub tokens: String,
}

impl View for Item {
    type V = (Seq<char>, Seq<char>);

    /// The name, then the tokens.
    open spec fn view(&self) -> (Seq<char>, Seq<char>) {
        (self.name@, self.tokens@)
    }
}

/// Why a text was not accepted as a type definition or as a path.
#[derive(Debug, PartialEq, Eq)]
pub struct ParseError {
    /// The parser's message.
    pub message: String,
}

impl View for ParseError {
    type V = Seq<char>;

    open spec fn view(&self) -> Seq<char> {
        self.message@
    }
}

/// What comes before the type's name in a `FromPointer` impl.
pub const FROM_POINTER_HEAD: &'static str = "impl FromPointer for ";

/// What follows the type's name in a `FromPointer` impl.
pub const FROM_POINTER_BODY: &'static str = " {
    fn from_ptr(p: *mut c_void) -> Self {
        Self(p)
    }
}
";

/// What comes before the type's name in a `HasPointer` impl.
pub const HAS_POINTER_HEAD: &'static str = "impl HasPointer for ";

/// What follows the type's name in a `HasPointer` impl.
pub const HAS_POINTER_BODY: &'static str = " {
    fn new() -> Self {
        Self(std::ptr::null_mut())
    }

    fn ptr(&self) -> *const c_void {
        self.0
    }

    fn mut_ptr(&mut self) -> *mut c_void {
        self.0
    }

    unsafe fn read<T>(&self) -> T {
        std::ptr::read(self.0 as *const _)
    }

    unsafe fn read_offset<T>(&self, offset: isize) -> T {
        std::ptr::read(self.0.offset(offset) as *const _)
    }

    unsafe fn nth<T>(&self, n: usize) -> T {
        std::ptr::read(self.0.offset((n * std::mem::size_of::<T>()) as isize) as *const _)
    }
}
";

/// The attribute that stands above a definition with a release function.
pub const FREEING_HEAD: &'static str = "#[derive(HasPointer)]
";

/// What stands between the definition and the type's name in its `Drop` impl.
pub const DROP_HEAD: &'static str = "

impl Drop for ";

/// What stands between the type's name and the release function's path.
pub const DROP_GUARD: &'static str = " {
    fn drop(&mut self) {
        if !self.0.is_null() {
            unsafe {
                ";

/// What follows the release function's path.
pub const DROP_CALL: &'static str = "(self.0);
            }
        }
    }
}
";

/// The `FromPointer` impl for the type `name`.
pub open spec fn from_pointer_text(name: Seq<char>) -> Seq<char> {
    FROM_POINTER_HEAD@ + name + FROM_POINTER_BODY@
}

/// The `HasPointer` impl for the type `name`.
pub open spec fn has_pointer_text(name: Seq<char>) -> Seq<char> {
    HAS_POINTER_HEAD@ + name + HAS_POINTER_BODY@
}

/// The definition `item` with its `HasPointer` derive, and the `Drop` impl
/// that hands a pointer that is not null to `release`.
pub open spec fn freeing_text(item: (Seq<char>, Seq<char>), release: Seq<char>) -> Seq<char> {
    FREEING_HEAD@ + item.1 + DROP_HEAD@ + item.0 + DROP_GUARD@ + release + DROP_CALL@
}

/// The name and the tokens of the definition that `syn` reads in `source`, or
/// the message of its error. It stands for `syn::parse_str` at the type
/// `syn::DeriveInput`, with the name taken from the field `ident` and the
/// tokens printed through `quote::ToTokens`.
pub uninterp spec fn parsed_item(source: Seq<char>) -> Result<(Seq<char>, Seq<char>), Seq<char>>;

/// The tokens of the path that `syn` reads in `source`, or the message of its
/// error. It stands for `syn::parse_str` at the type `syn::TypePath`, with the
/// tokens printed through `quote::ToTokens`.
pub uninterp spec fn parsed_path(source: Seq<char>) -> Result<Seq<char>, Seq<char>>;

/// A definition that was read or the error of reading it, by their views.
pub open spec fn item_outcome(parsed: Result<Item, ParseError>) -> Result<
    (Seq<char>, Seq<char>),
    Seq<char>,
> {
    match parsed {
        Ok(item) => Ok(item@),
        Err(error) => Err(error@),
    }
}

/// A text that was read or written or the error in its place, by their views.
pub open spec fn text_outcome(written: Result<String, ParseError>) -> Result<Seq<char>, Seq<char>> {
    match written {
        Ok(text) => Ok(text@),
        Err(error) => Err(error@),
    }
}

/// The `FromPointer` impl for a definition that was read; the error of
/// reading it stays as it is.
pub open spec fn from_pointer_expansion(parsed: Result<(Seq<char>, Seq<char>), Seq<char>>) -> Result<
    Seq<char>,
    Seq<char>,
> {
    match parsed {
        Ok(item) => Ok(from_pointer_text(item.0)),
        Err(message) => Err(message),
    }
}

/// The `HasPointer` impl for a definition that was read; the error of reading
/// it stays as it is.
pub open spec fn has_pointer_expansion(parsed: Result<(Seq<char>, Seq<char>), Seq<char>>) -> Result<
    Seq<char>,
    Seq<char>,
> {
    match parsed {
        Ok(item) => Ok(has_pointer_text(item.0)),
        Err(message) => Err(message),
    }
}

/// The definition with its derive and its `Drop` impl, for a definition and a
/// release path that were read. An error of the definition comes before one
/// of the path.
pub open spec fn freeing_expansion(
    item: Result<(Seq<char>, Seq<char>), Seq<char>>,
    release: Result<Seq<char>, Seq<char>>,
) -> Result<Seq<char>, Seq<char>> {
    match item {
        Err(message) => Err(message),
        Ok(read) => match release {
            Err(message) => Err(message),
            Ok(path) => Ok(freeing_text(read, path)),
        },
    }
}

/// Reads `source` as the definition of a struct, an enum or a union, with
/// `syn::parse_str` at the type `syn::DeriveInput`, and hands out the name and
/// the tokens of what was read, or the message of `syn`'s error.
///
/// The contract claims one thing: that the outcome depends on `source` alone.
/// The text is split into tokens and printed by `proc-macro2`'s own code, as
/// this crate asks for it without the feature `proc-macro`; no compiler takes
/// part. What the parser accepts is not stated here.
#[verifier::external_body]
fn parse_item(source: &str) -> (parsed: Result<Item, ParseError>)
    ensures
        item_outcome(parsed) == parsed_item(source@),
{
    match syn::parse_str::<syn::DeriveInput>(source) {
        Ok(input) => Ok(Item {
            name: input.ident.to_string(),
            tokens: quote::ToTokens::to_token_stream(&input).to_string(),
        }),
        Err(error) => Err(ParseError { message: error.to_string() }),
    }
}

/// Reads `source` as a path with `syn::parse_str` at the type `syn::TypePath`,
/// and hands out its tokens, or the message of `syn`'s error.
///
/// The contract claims that the outcome depends on `source` alone, for the
/// reason given at `parse_item`. What the parser accepts is not stated here.
#[verifier::external_body]
fn parse_release_path(source: &str) -> (parsed: Result<String, ParseError>)
    ensures
        text_outcome(parsed) == parsed_path(source@),
{
    match syn::parse_str::<syn::TypePath>(source) {
        Ok(path) => Ok(quote::ToTokens::to_token_stream(&path).to_string()),
        Err(error) => Err(ParseError { message: error.to_string() }),
    }
}

/// Writes the `FromPointer` impl for a definition that was read, or hands the
/// error of reading it on.
pub fn expand_from_pointer(parsed: Result<Item, ParseError>) -> (expanded: Result<
    String,
    ParseError,
>)
    ensures
        text_outcome(expanded) == from_pointer_expansion(item_outcome(parsed)),
{
    match parsed {
        Ok(item) => {
            let mut text = String::from_str(FROM_POINTER_HEAD);
            text.append(item.name.as_str());
            text.append(FROM_POINTER_BODY);
            Ok(text)
        },
        Err(error) => Err(error),
    }
}

/// Writes the `HasPointer` impl for a definition that was read, or hands the
/// error of reading it on.
pub fn expand_has_pointer(parsed: Result<Item, ParseError>) -> (expanded: Result<
    String,
    ParseError,
>)
    ensures
        text_outcome(expanded) == has_pointer_expansion(item_outcome(parsed)),
{
    match parsed {
        Ok(item) => {
            let mut text = String::from_str(HAS_POINTER_HEAD);
            text.append(item.name.as_str());
            text.append(HAS_POINTER_BODY);
            Ok(text)
        },
        Err(error) => Err(error),
    }
}

/// Writes the definition with its derive and its `Drop` impl, for a
/// definition and a release path that were read, or hands on the error of
/// reading them: that of the definition, if there is one, else that of the
/// path.
pub fn expand_freeing(item: Result<Item, ParseError>, release: Result<String, ParseError>) -> (expanded:
    Result<String, ParseError>)
    ensures
        text_outcome(expanded) == freeing_expansion(item_outcome(item), text_outcome(release)),
{
    let read = match item {
        Ok(read) => read,
        Err(error) => {
            return Err(error);
        },
    };
    let path = match release {
        Ok(path) => path,
        Err(error) => {
            return Err(error);
        },
    };
    let mut text = String::from_str(FREEING_HEAD);
    text.append(read.tokens.as_str());
    text.append(DROP_HEAD);
    text.append(read.name.as_str());
    text.append(DROP_GUARD);
    text.append(path.as_str());
    text.append(DROP_CALL);
    Ok(text)
}

/// Writes the `FromPointer` impl for the type that `input` defines; where
/// `input` defines none, the parser's error is returned.
pub fn derive_from_pointer(input: &str) -> (expanded: Result<String, ParseError>)
    ensures
        text_outcome(expanded) == from_pointer_expansion(parsed_item(input@)),
{
    expand_from_pointer(parse_item(input))
}

/// Writes the `HasPointer` impl for the type that `input` defines; where
/// `input` defines none, the parser's error is returned.
pub fn derive_has_pointer(input: &str) -> (expanded: Result<String, ParseError>)
    ensures
        text_outcome(expanded) == has_pointer_expansion(parsed_item(input@)),
{
    expand_has_pointer(parse_item(input))
}

/// Writes the definition `input` with its `HasPointer` derive and a `Drop`
/// impl that releases through the function at the path `attr`. Where `input`
/// defines no type the parser's error of it is returned, else, where `attr` is
/// no path, the parser's error of that.
pub fn freeing(attr: &str, input: &str) -> (expanded: Result<String, ParseError>)
    ensures
        text_outcome(expanded) == freeing_expansion(parsed_item(input@), parsed_path(attr@)),
{
    let item = parse_item(input);
    let release = parse_release_path(attr);
    expand_freeing(item, release)
}

} // verus!
