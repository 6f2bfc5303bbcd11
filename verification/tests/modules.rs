use rune::hash::{Hash64, EMPTY};
use rune::item::{Component, ItemBuf};
use rune::module::{
    AssociatedKind, AttributeMacroHandler, ContextError, DocFunction, DocType, FieldNames,
    FunctionData, FunctionDef, FunctionHandler, FunctionMeta, FunctionMetaKind,
    InstanceFunctionDef, MacroHandler, MacroMeta, MacroMetaKind, Module, ModuleItemKind,
    ModuleMeta, Protocol, TypeConstructor, TypeSpecification, Variant, Docs,
};
use rune::modules::hash_map::HashMap;
use rune::modules::json::JsonError;
use rune::modules::test::Bencher;
use rune::runtime::{ConstValue, Inline, TypeOf};

fn function(handler: u64) -> FunctionDef {
    FunctionDef {
        handler: FunctionHandler(handler),
        doc: DocFunction {
            is_async: false,
            args: Some(0),
            return_type: DocType { hash: Hash64(EMPTY), generics: Vec::new() },
            argument_types: Vec::new(),
        },
    }
}

fn instance(handler: u64) -> InstanceFunctionDef {
    InstanceFunctionDef {
        function: function(handler),
        container: HashMap::type_hash(),
        container_type_info: HashMap::type_info(),
    }
}

fn lines(text: &str) -> Vec<String> {
    vec![text.to_string()]
}

const ADD: Protocol = Protocol { name: "ADD", hash: Hash64(77) };

#[test]
fn modules_have_names() {
    assert_eq!(Module::new().item, ItemBuf::new());
    assert_eq!(Module::with_item(vec!["a", "b"]).unwrap().item.display(), "a::b");
    assert_eq!(Module::with_crate("a").unwrap().item.display(), "::a");
    assert_eq!(Module::with_crate_item("a", vec!["b"]).unwrap().item.display(), "::a::b");
    assert_eq!(Module::new().with_unique("x").unique, Some("x"));
    assert_eq!(Module::new().as_ref().unique, None);
    let meta = ModuleMeta { item: ItemBuf::with_crate("a"), docs: lines("docs") };
    let module = Module::from_meta(meta).unwrap();
    assert_eq!(module.item.display(), "::a");
    assert_eq!(module.common.docs.docs, lines("docs"));
}

#[test]
fn module_documentation_can_be_set() {
    let mut module = Module::new();
    module.item_mut().docs(lines("docs")).deprecated("old".to_string());
    assert_eq!(module.common.docs.docs, lines("docs"));
    assert_eq!(module.common.deprecated, Some("old".to_string()));
}

#[test]
fn functions_conflict_with_functions_and_constants() {
    let mut module = Module::with_item(vec!["m"]).unwrap();
    module.function("f", function(1)).build().unwrap().docs(lines("docs"));
    assert_eq!(module.items.len(), 1);
    assert_eq!(module.items[0].item.display(), "m::f");
    assert_eq!(module.items[0].common.docs.docs, lines("docs"));

    let item = ItemBuf::with_item(vec!["m", "f"]);
    let hash = Hash64::type_hash(&item);
    assert_eq!(
        module.function("f", function(2)).build().err(),
        Some(ContextError::ConflictingFunctionName { item: item.copy(), hash })
    );
    assert_eq!(
        module.constant("f", 1i64).build().err(),
        Some(ContextError::ConflictingConstantName { item, hash })
    );
    assert_eq!(module.items.len(), 1);
}

#[test]
fn macros_have_names_of_their_own() {
    let mut module = Module::new();
    module.function("f", function(1)).build().unwrap();
    module.macro_("f", MacroHandler(1)).unwrap();
    module.attribute_macro("f", AttributeMacroHandler(1)).unwrap();
    let item = ItemBuf::with_item(vec!["f"]);
    let hash = Hash64::type_hash(&item);
    let error = Some(ContextError::ConflictingMacroName { item: item.copy(), hash });
    assert_eq!(module.macro_("f", MacroHandler(2)).err(), error);
    assert_eq!(module.attribute_macro("f", AttributeMacroHandler(2)).err(), error);
    let meta = MacroMeta {
        kind: MacroMetaKind::Function(item.copy(), MacroHandler(3)),
        docs: Vec::new(),
    };
    assert_eq!(module.macro_meta(meta).err(), error);
    let meta = MacroMeta {
        kind: MacroMetaKind::Attribute(item.copy(), AttributeMacroHandler(3)),
        docs: Vec::new(),
    };
    assert_eq!(module.macro_meta(meta).err(), error);
    let meta = MacroMeta {
        kind: MacroMetaKind::Attribute(ItemBuf::with_item(vec!["g"]), AttributeMacroHandler(3)),
        docs: lines("docs"),
    };
    module.macro_meta(meta).unwrap();
    assert_eq!(module.items.len(), 4);
    assert_eq!(module.items[3].common.docs.docs, lines("docs"));
}

#[test]
fn constants_are_registered_with_their_values() {
    let mut module = Module::new();
    module.constant("A", 10i64).build().unwrap().docs(lines("ten"));
    module.constant("B", "text".to_string()).build().unwrap();
    module.constant("TEN", 10i64).build_associated::<HashMap>().unwrap();
    assert_eq!(
        module.items[0].kind,
        ModuleItemKind::Constant(ConstValue::Inline(Inline::Signed(10)))
    );
    assert_eq!(
        module.items[1].kind,
        ModuleItemKind::Constant(ConstValue::String("text".to_string()))
    );
    assert_eq!(module.associated.len(), 1);
    assert_eq!(module.associated[0].container, HashMap::type_hash());
    assert!(module.constant("TEN", true).build_associated::<HashMap>().is_err());
    assert!(module.construct.is_empty());
    assert_eq!(module.construct_hash.len(), 2);
}

#[test]
fn annotated_functions_keep_their_documentation() {
    let mut module = Module::new();
    let meta = FunctionMeta {
        kind: FunctionMetaKind::Function(FunctionData {
            item: ItemBuf::with_item(vec!["f"]),
            function: function(1),
        }),
        docs: lines("docs"),
        arguments: Some(lines("a")),
        deprecated: Some("old".to_string()),
    };
    module.function_meta(meta).unwrap();
    let common = &module.items[0].common;
    assert_eq!(common.docs, Docs { docs: lines("docs"), arguments: Some(lines("a")) });
    assert_eq!(common.deprecated, Some("old".to_string()));
}

#[test]
fn associated_functions_conflict_by_their_names() {
    let mut module = Module::new();
    let info = HashMap::type_info();
    module.associated_function("len", instance(1)).unwrap();
    module.associated_function(ADD, instance(2)).unwrap();
    module.field_function(ADD, "field", instance(3)).unwrap();
    module.index_function(ADD, 1, instance(4)).unwrap();
    module.index_function(ADD, 2, instance(5)).unwrap();
    assert_eq!(module.associated.len(), 5);
    assert_eq!(module.associated[1].name.kind, AssociatedKind::Protocol(ADD));
    assert_eq!(
        module.associated_function("len", instance(6)).err(),
        Some(ContextError::ConflictingInstanceFunction {
            type_info: info,
            name: "len".to_string(),
        })
    );
    assert_eq!(
        module.associated_function(ADD, instance(6)).err(),
        Some(ContextError::ConflictingProtocolFunction {
            type_info: info,
            name: "ADD".to_string(),
        })
    );
    assert_eq!(
        module.field_function(ADD, "field", instance(6)).err(),
        Some(ContextError::ConflictingFieldFunction {
            type_info: info,
            name: "ADD".to_string(),
            field: "field".to_string(),
        })
    );
    assert_eq!(
        module.index_function(ADD, 2, instance(6)).err(),
        Some(ContextError::ConflictingIndexFunction {
            type_info: info,
            name: "ADD".to_string(),
            index: 2,
        })
    );
    module.function("g", function(7)).build_associated::<HashMap>().unwrap();
    module.raw_function("raw", FunctionHandler(8)).build().unwrap();
    assert_eq!(module.associated.len(), 6);
    match &module.items[0].kind {
        ModuleItemKind::Function(f) => assert_eq!(f.doc.args, None),
        _ => panic!("expected a function"),
    }
}

#[test]
fn types_and_their_variants() {
    let mut module = Module::new();
    assert_eq!(
        module.type_meta::<HashMap>().err(),
        Some(ContextError::MissingType {
            item: ItemBuf::with_item(vec!["::std::collections::HashMap"]),
            type_info: HashMap::type_info(),
        })
    );
    module.ty::<HashMap>().unwrap().docs(lines("map"));
    assert_eq!(module.types[0].common.docs.docs, lines("map"));
    assert!(matches!(
        module.ty::<HashMap>().err(),
        Some(ContextError::ConflictingType { .. })
    ));
    assert!(matches!(
        module.variant_meta::<HashMap>(0).err(),
        Some(ContextError::MissingEnum { .. })
    ));

    let handle = module.type_meta::<HashMap>().unwrap();
    *handle.spec = Some(TypeSpecification::Enum(vec![Variant {
        name: "First",
        fields: Some(FieldNames::Empty),
        constructor: None,
        docs: Docs { docs: Vec::new(), arguments: None },
    }]));
    *module.variant_meta::<HashMap>(0).unwrap().constructor = Some(TypeConstructor(3));
    match &module.types[0].spec {
        Some(TypeSpecification::Enum(variants)) => {
            assert_eq!(variants[0].constructor, Some(TypeConstructor(3)))
        }
        _ => panic!("expected an enum"),
    }
    assert_eq!(
        module.variant_meta::<HashMap>(1).err(),
        Some(ContextError::MissingVariant { type_info: HashMap::type_info(), index: 1 })
    );
    assert!(module.variant_meta::<Bencher>(0).is_err());
}

#[test]
fn types_are_found_after_others_are_registered() {
    let mut module = Module::new();
    module.ty::<HashMap>().unwrap().docs(lines("map"));
    module.ty::<Bencher>().unwrap().docs(lines("bencher"));
    let names = module.names.len();

    let handle = module.type_meta::<HashMap>().unwrap();
    *handle.constructor = Some(TypeConstructor(5));
    handle.docs(lines("changed"));

    assert_eq!(module.types.len(), 2);
    assert_eq!(module.names.len(), names);
    assert_eq!(module.types[0].hash, HashMap::type_hash());
    assert_eq!(module.types[0].common.docs.docs, lines("changed"));
    assert_eq!(module.types[0].constructor, Some(TypeConstructor(5)));
    assert_eq!(module.types[1].hash, Bencher::type_hash());
    assert_eq!(module.types[1].common.docs.docs, lines("bencher"));
    assert_eq!(module.types[1].constructor, None);
    assert!(matches!(
        module.type_meta::<JsonError>().err(),
        Some(ContextError::MissingType { .. })
    ));
    assert_eq!(module.types.len(), 2);
    assert_eq!(module.names.len(), names);
}

#[test]
fn traits_and_reexports() {
    let mut module = Module::with_item(vec!["m"]).unwrap();
    module.define_trait(vec!["T"]).unwrap();
    assert_eq!(module.traits[0].item.display(), "m::T");
    assert!(matches!(
        module.define_trait(vec!["T"]).err(),
        Some(ContextError::ConflictingTrait { .. })
    ));
    let item = ItemBuf::with_item(vec!["m", "T"]);
    module.implement_trait::<HashMap>(&item).unwrap();
    assert_eq!(module.trait_impls.len(), 1);
    assert!(matches!(
        module.implement_trait::<HashMap>(&item).err(),
        Some(ContextError::ConflictingTraitImpl { .. })
    ));
    module.reexport(vec!["U"], &item).unwrap();
    assert_eq!(module.reexports[0].item.display(), "m::U");
    assert!(matches!(
        module.reexport(vec!["T"], &item).err(),
        Some(ContextError::ConflictingReexport { .. })
    ));
    assert!(module.function(Component::Str("U".to_string()), function(1)).build().is_err());
}
