//! The augmentation of a struct declaration: the derive attribute put before
//! it and the `ScrapedItem` implementation put after it.
use vstd::prelude::*;

use crate::capability::{derive_attribute, render_derive_attribute, standard_capabilities, Capability};
use crate::declaration::{mentions_struct, ParseError, StructDeclaration};
use vstd::string::StrSliceExecFns;

verus! {

/// The `as_any` method: the instance itself, as `&dyn Any`.
pub open spec fn as_any_method() -> Seq<char> {
    "    fn as_any(&self) -> &dyn ::std::any::Any {\n        self\n    }\n"@
}

/// The `box_clone` method: a boxed clone of the instance.
pub open spec fn box_clone_method() -> Seq<char> {
    "    fn box_clone(&self) -> Box<dyn ScrapedItem + Send + Sync> {\n        Box::new(self.clone())\n    }\n"@
}

/// The `to_json_value` method: the instance as a `serde_json::Value`, with a
/// panic where serialisation fails.
pub open spec fn to_json_value_method() -> Seq<char> {
    "    fn to_json_value(&self) -> ::serde_json::Value {\n        ::serde_json::to_value(self).unwrap()\n    }\n"@
}

/// The implementation of `ScrapedItem` for the struct named `target`.
pub open spec fn impl_text(target: Seq<char>) -> Seq<char> {
    "impl ScrapedItem for "@ + target + " {\n"@ + as_any_method() + "\n"@ + box_clone_method()
        + "\n"@ + to_json_value_method() + "}\n"@
}

/// `source` without a leading byte-order mark. The parser skips such a mark
/// at the start of its input, but anywhere else it is no whitespace, so the
/// declaration is written out without it.
pub open spec fn without_byte_order_mark(source: Seq<char>) -> Seq<char> {
    if source.len() > 0 && source[0] == '\u{feff}' {
        source.drop_first()
    } else {
        source
    }
}

/// The text of an augmented unit: the derive attribute, the declaration as
/// it was given (less a leading byte-order mark), a blank line, and the
/// implementation.
pub open spec fn unit_text(caps: Seq<Capability>, source: Seq<char>, target: Seq<char>) -> Seq<char> {
    derive_attribute(caps) + without_byte_order_mark(source) + "\n\n"@ + impl_text(target)
}

/// What augmenting the declaration text `item`, whose struct the parser
/// names `name`, gives.
pub open spec fn augmented_text(item: Seq<char>, name: Seq<char>) -> Seq<char> {
    unit_text(standard_capabilities(), item, name)
}

/// `source` without a leading byte-order mark.
pub fn strip_byte_order_mark(source: &str) -> (r: &str)
    ensures
        r@ == without_byte_order_mark(source@),
{
    let n = source.unicode_len();
    if n > 0 && source.get_char(0) == '\u{feff}' {
        source.substring_char(1, n)
    } else {
        source
    }
}

/// The implementation of `ScrapedItem` that an augmented struct receives. Its
/// three methods are fixed; only the struct it is for varies.
#[derive(Clone, Debug, PartialEq, Eq)]
pub struct InterfaceImpl {
    /// The identifier of the struct that the implementation is for.
    pub target: String,
}

impl InterfaceImpl {
    /// Writes the implementation as source text.
    pub fn render(&self) -> (r: String)
        ensures
            r@ == impl_text(self.target@),
    {
        let mut r = String::from_str("impl ScrapedItem for ");
        r.append(self.target.as_str());
        r.append(" {\n");
        r.append("    fn as_any(&self) -> &dyn ::std::any::Any {\n        self\n    }\n");
        r.append("\n");
        r.append(
            "    fn box_clone(&self) -> Box<dyn ScrapedItem + Send + Sync> {\n        Box::new(self.clone())\n    }\n",
        );
        r.append("\n");
        r.append(
            "    fn to_json_value(&self) -> ::serde_json::Value {\n        ::serde_json::to_value(self).unwrap()\n    }\n",
        );
        r.append("}\n");
        r
    }
}

/// A struct declaration together with what augmentation adds to it.
#[derive(Clone, Debug, PartialEq, Eq)]
pub struct AugmentedUnit {
    /// The capabilities derived for the struct, in order.
    pub capabilities: Vec<Capability>,
    /// The declaration, unchanged.
    pub declaration: StructDeclaration,
    /// The implementation of `ScrapedItem` for the struct.
    pub implementation: InterfaceImpl,
}

impl AugmentedUnit {
    /// Writes the unit as source text: the derive attribute, the declaration
    /// (less a leading byte-order mark), a blank line and the implementation.
    pub fn render(&self) -> (r: String)
        ensures
            r@ == unit_text(
                self.capabilities@,
                self.declaration.source@,
                self.implementation.target@,
            ),
    {
        let mut r = render_derive_attribute(&self.capabilities);
        r.append(strip_byte_order_mark(self.declaration.source.as_str()));
        r.append("\n\n");
        let body = self.implementation.render();
        r.append(body.as_str());
        r
    }
}

/// Augments a parsed declaration: the four standard capabilities, the
/// declaration unchanged, and an implementation for the struct's identifier.
pub fn augment(declaration: StructDeclaration) -> (r: AugmentedUnit)
    ensures
        r.capabilities@ == standard_capabilities(),
        r.declaration.name@ == declaration.name@,
        r.declaration.source@ == declaration.source@,
        r.implementation.target@ == declaration.name@,
{
    let target = declaration.name.clone();
    AugmentedUnit {
        capabilities: Capability::standard(),
        declaration,
        implementation: InterfaceImpl { target },
    }
}

/// Finishes an augmentation from the parser's outcome: a parsed declaration
/// becomes its augmented text, and a parse error is passed on unchanged, with
/// no text at all.
pub fn finish_augmentation(parsed: Result<StructDeclaration, ParseError>) -> (r: Result<
    String,
    ParseError,
>)
    ensures
        parsed is Err ==> r is Err && r->Err_0 == parsed->Err_0,
        parsed is Ok ==> r is Ok && r->Ok_0@ == augmented_text(
            parsed->Ok_0.source@,
            parsed->Ok_0.name@,
        ),
{
    match parsed {
        Ok(declaration) => {
            let unit = augment(declaration);
            Ok(unit.render())
        },
        Err(e) => Err(e),
    }
}

/// Augments the struct declaration `item` and returns the resulting source
/// text. `attr`, the arguments of the annotation, is ignored: the
/// augmentation takes none. Text that the parser does not accept as one
/// struct declaration is a `ParseError`, with no output; text without the
/// word `struct` always is. Where it is accepted, the output is the
/// augmentation of `item` for the non-empty identifier that the parser
/// reported (see `finish_augmentation`).
pub fn scraped_item(attr: &str, item: &str) -> (r: Result<String, ParseError>)
    ensures
        r is Ok ==> exists|name: Seq<char>|
            name.len() > 0 && #[trigger] augmented_text(item@, name) == r->Ok_0@,
        !mentions_struct(item@) ==> r is Err,
{
    let _ = attr;
    let parsed = StructDeclaration::parse(item);
    let ghost name = parsed->Ok_0.name@;
    let r = finish_augmentation(parsed);
    assert(r is Ok ==> augmented_text(item@, name) == r->Ok_0@);
    r
}

} // verus!
