use spider_macro::augment::strip_byte_order_mark;
use spider_macro::{augment, finish_augmentation, scraped_item, ParseError, AugmentedUnit, Capability, InterfaceImpl, StructDeclaration};

const DERIVES: &str = "#[derive(::serde::Serialize, ::serde::Deserialize, Clone, Debug)]\n";

fn impl_for(name: &str) -> String {
    format!(
        "impl ScrapedItem for {} {{\n\
         \x20   fn as_any(&self) -> &dyn ::std::any::Any {{\n\
         \x20       self\n\
         \x20   }}\n\
         \n\
         \x20   fn box_clone(&self) -> Box<dyn ScrapedItem + Send + Sync> {{\n\
         \x20       Box::new(self.clone())\n\
         \x20   }}\n\
         \n\
         \x20   fn to_json_value(&self) -> ::serde_json::Value {{\n\
         \x20       ::serde_json::to_value(self).unwrap()\n\
         \x20   }}\n\
         }}\n",
        name
    )
}

#[test]
fn article_with_title_and_content() {
    let item = "struct Article {\n    title: String,\n    content: String,\n}";
    let out = scraped_item("", item).unwrap();
    let expected = format!("{}{}\n\n{}", DERIVES, item, impl_for("Article"));
    assert_eq!(out, expected);
}

#[test]
fn output_holds_one_declaration_and_one_impl() {
    let item = "pub struct Page { pub url: String, pub depth: u32 }";
    let out = scraped_item("", item).unwrap();
    assert_eq!(out.matches(item).count(), 1);
    assert_eq!(out.matches("impl ScrapedItem for Page {").count(), 1);
    assert!(out.starts_with(DERIVES));
    assert!(out.ends_with(&impl_for("Page")));
}

#[test]
fn enum_is_rejected() {
    let r = scraped_item("", "enum Kind { A, B }");
    assert!(r.is_err());
    assert!(!r.unwrap_err().message.is_empty());
}

#[test]
fn other_declarations_are_rejected() {
    assert!(scraped_item("", "fn item() {}").is_err());
    assert!(scraped_item("", "trait Item {}").is_err());
    assert!(scraped_item("", "mod items {}").is_err());
    assert!(scraped_item("", "").is_err());
    assert!(scraped_item("", "struct").is_err());
    assert!(scraped_item("", "struct A; struct B;").is_err());
}

#[test]
fn identical_inputs_give_identical_outputs() {
    let item = "struct Quote { text: String, author: String }";
    let first = scraped_item("", item).unwrap();
    let second = scraped_item("", item).unwrap();
    assert_eq!(first, second);
}

#[test]
fn annotation_arguments_are_ignored() {
    let item = "struct Book { isbn: String }";
    assert_eq!(scraped_item("", item), scraped_item("anything, at = all", item));
}

#[test]
fn tuple_and_unit_structs_are_accepted() {
    let tuple = "struct Pair(String, u64);";
    assert_eq!(
        scraped_item("", tuple).unwrap(),
        format!("{}{}\n\n{}", DERIVES, tuple, impl_for("Pair"))
    );
    let unit = "struct Marker;";
    assert_eq!(
        scraped_item("", unit).unwrap(),
        format!("{}{}\n\n{}", DERIVES, unit, impl_for("Marker"))
    );
}

#[test]
fn attributes_and_generics_are_kept_verbatim() {
    let item = "/// A product.\n#[serde(rename_all = \"camelCase\")]\npub struct Product<T> where T: Clone { price: T }";
    let out = scraped_item("", item).unwrap();
    assert_eq!(out, format!("{}{}\n\n{}", DERIVES, item, impl_for("Product")));
}

#[test]
fn parse_reads_the_identifier() {
    let d = StructDeclaration::parse("pub(crate) struct Listing { id: u64 }").unwrap();
    assert_eq!(d.name, "Listing");
    assert_eq!(d.source, "pub(crate) struct Listing { id: u64 }");
    let raw = StructDeclaration::parse("struct r#type { x: u8 }").unwrap();
    assert_eq!(raw.name, "r#type");
}

#[test]
fn parse_rejects_an_enum() {
    assert!(StructDeclaration::parse("enum Colour { Red }").is_err());
}

#[test]
fn augment_adds_capabilities_and_impl() {
    let d = StructDeclaration::parse("struct Review { stars: u8 }").unwrap();
    let unit = augment(d.clone());
    assert_eq!(
        unit.capabilities,
        vec![
            Capability::Serializable,
            Capability::Deserializable,
            Capability::Duplicable,
            Capability::DebugPrintable,
        ]
    );
    assert_eq!(unit.declaration, d);
    assert_eq!(unit.implementation, InterfaceImpl { target: "Review".to_string() });
}

#[test]
fn unit_renders_its_parts() {
    let unit = AugmentedUnit {
        capabilities: vec![Capability::Duplicable],
        declaration: StructDeclaration { name: "X".to_string(), source: "struct X;".to_string() },
        implementation: InterfaceImpl { target: "X".to_string() },
    };
    assert_eq!(unit.render(), format!("#[derive(Clone)]\nstruct X;\n\n{}", impl_for("X")));
}

#[test]
fn impl_renders_for_its_target() {
    let i = InterfaceImpl { target: "Listing".to_string() };
    assert_eq!(i.render(), impl_for("Listing"));
}

#[test]
fn leading_byte_order_mark_is_not_written_out() {
    let out = scraped_item("", "\u{feff}struct A;").unwrap();
    assert_eq!(out, format!("{}struct A;\n\n{}", DERIVES, impl_for("A")));
    assert!(!out.contains('\u{feff}'));
}

#[test]
fn unit_render_drops_a_leading_byte_order_mark() {
    let unit = AugmentedUnit {
        capabilities: vec![Capability::DebugPrintable],
        declaration: StructDeclaration {
            name: "Y".to_string(),
            source: "\u{feff}struct Y;".to_string(),
        },
        implementation: InterfaceImpl { target: "Y".to_string() },
    };
    assert_eq!(unit.render(), format!("#[derive(Debug)]\nstruct Y;\n\n{}", impl_for("Y")));
}

#[test]
fn strip_byte_order_mark_only_at_the_start() {
    assert_eq!(strip_byte_order_mark(""), "");
    assert_eq!(strip_byte_order_mark("\u{feff}"), "");
    assert_eq!(strip_byte_order_mark("\u{feff}struct Z;"), "struct Z;");
    assert_eq!(strip_byte_order_mark("\u{feff}\u{feff}a"), "\u{feff}a");
    assert_eq!(strip_byte_order_mark("a\u{feff}"), "a\u{feff}");
    assert_eq!(strip_byte_order_mark("struct Z;"), "struct Z;");
}

#[test]
fn finish_passes_a_parse_error_on_unchanged() {
    let e = ParseError { message: "expected `struct`".to_string() };
    assert_eq!(finish_augmentation(Err(e.clone())), Err(e));
}

#[test]
fn finish_writes_out_a_parsed_declaration() {
    let d = StructDeclaration { name: "Post".to_string(), source: "struct Post { body: String }".to_string() };
    assert_eq!(
        finish_augmentation(Ok(d)).unwrap(),
        format!("{}struct Post {{ body: String }}\n\n{}", DERIVES, impl_for("Post"))
    );
}

#[test]
fn text_without_the_struct_keyword_fails_with_no_output() {
    for item in ["enum E { A }", "fn f() {}", "trait T {}", "mod m {}"] {
        let r = scraped_item("", item);
        assert!(matches!(r, Err(ParseError { .. })));
    }
}
