//! What holds of every augmentation, stated over the texts it produces.
use vstd::prelude::*;

use crate::augment::{
    as_any_method, augmented_text, box_clone_method, impl_text, to_json_value_method,
    without_byte_order_mark,
};
use crate::capability::{derive_attribute, joined_paths, standard_capabilities, Capability};

verus! {

/// Augmenting a struct declaration `item` whose identifier the parser
/// reports as `name` gives a text made of three parts and nothing else: the
/// derive attribute of the four standard capabilities, `item` itself
/// unchanged but for a leading byte-order mark (one declaration of `name`,
/// with the same fields), and after a blank line one implementation of
/// `ScrapedItem` for `name`.
pub proof fn augmentation_keeps_declaration_and_adds_one_impl(item: Seq<char>, name: Seq<char>)
    ensures
        ({
            let out = augmented_text(item, name);
            let decl = without_byte_order_mark(item);
            let h = derive_attribute(standard_capabilities()).len() as int;
            let d = h + decl.len();
            &&& out.len() == d + 2 + impl_text(name).len()
            &&& out.subrange(0, h) == derive_attribute(standard_capabilities())
            &&& out.subrange(h, d) == decl
            &&& out.subrange(d, d + 2) == "\n\n"@
            &&& out.subrange(d + 2, out.len() as int) == impl_text(name)
        }),
{
    let out = augmented_text(item, name);
    let decl = without_byte_order_mark(item);
    let head = derive_attribute(standard_capabilities());
    let gap = "\n\n"@;
    let body = impl_text(name);
    let h = head.len() as int;
    let d = h + decl.len();
    reveal_strlit("\n\n");
    assert(out == head + decl + gap + body);
    assert(out.subrange(0, h) =~= head);
    assert(out.subrange(h, d) =~= decl);
    assert(out.subrange(d, d + 2) =~= gap);
    assert(out.subrange(d + 2, out.len() as int) =~= body);
}

/// The derive attribute of the standard capabilities asks for serde's
/// `Serialize` and `Deserialize`, then `Clone` and `Debug`.
pub proof fn standard_derive_attribute()
    ensures
        derive_attribute(standard_capabilities())
            == "#[derive(::serde::Serialize, ::serde::Deserialize, Clone, Debug)]\n"@,
{
    let caps = standard_capabilities();
    reveal_with_fuel(joined_paths, 4);
    assert(caps.drop_last() =~= seq![
        Capability::Serializable,
        Capability::Deserializable,
        Capability::Duplicable,
    ]);
    assert(caps.drop_last().drop_last() =~= seq![
        Capability::Serializable,
        Capability::Deserializable,
    ]);
    assert(caps.drop_last().drop_last().drop_last() =~= seq![Capability::Serializable]);
    reveal_strlit("#[derive(");
    reveal_strlit("::serde::Serialize");
    reveal_strlit("::serde::Deserialize");
    reveal_strlit("Clone");
    reveal_strlit("Debug");
    reveal_strlit(", ");
    reveal_strlit(")]\n");
    reveal_strlit("#[derive(::serde::Serialize, ::serde::Deserialize, Clone, Debug)]\n");
    assert(derive_attribute(caps)
        =~= "#[derive(::serde::Serialize, ::serde::Deserialize, Clone, Debug)]\n"@);
}

/// An implementation text names exactly one struct: two implementations with
/// the same text are for the same identifier.
pub proof fn impl_text_determines_target(a: Seq<char>, b: Seq<char>)
    requires
        impl_text(a) == impl_text(b),
    ensures
        a == b,
{
    let h = "impl ScrapedItem for "@.len() as int;
    let ta = impl_text(a);
    let tb = impl_text(b);
    let tail = " {\n"@ + as_any_method() + "\n"@ + box_clone_method() + "\n"@
        + to_json_value_method() + "}\n"@;
    assert(ta =~= "impl ScrapedItem for "@ + a + tail);
    assert(tb =~= "impl ScrapedItem for "@ + b + tail);
    assert(a.len() == b.len());
    assert(ta.subrange(h, h + a.len()) =~= a);
    assert(tb.subrange(h, h + b.len()) =~= b);
}

} // verus!
