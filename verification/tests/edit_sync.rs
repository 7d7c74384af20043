use hyprshell::sync::{self, ArrayStep, ItemKind, TomlEntry};
use hyprshell::toml_doc;
use toml_edit::{DocumentMut, InlineTable, Item, Table, TableLike, Value};

/// A table-like item as an item of its own, for reading its entries.
fn sync_document(dst: &mut DocumentMut, src: &DocumentMut) {
    toml_doc::sync_items(dst.as_item_mut(), src.as_item())
        .unwrap_or_else(|_| panic!("items dont match"));
}

fn tables(item: &Item) -> Result<Vec<Item>, String> {
    match item {
        Item::Value(Value::Array(a)) => Ok(a
            .iter()
            .filter_map(|v| v.as_inline_table().map(|t| Item::Value(Value::InlineTable(t.clone()))))
            .collect()),
        Item::ArrayOfTables(a) => Ok(a.iter().map(|t| Item::Table(t.clone())).collect()),
        _ => Err("not array of tables".to_string()),
    }
}

fn merge_at(dst: &mut Item, index: usize, src: &Item) -> Result<(), String> {
    match dst {
        Item::Value(Value::Array(a)) => {
            let t = a
                .iter_mut()
                .filter_map(|v| v.as_inline_table_mut())
                .nth(index)
                .ok_or("invalid destination".to_string())?;
            let mut item = Item::Value(Value::InlineTable(std::mem::take(t)));
            let merged = toml_doc::sync_items(&mut item, src);
            if let Item::Value(Value::InlineTable(back)) = item {
                *t = back;
            }
            merged.unwrap_or_else(|_| panic!("items dont match"));
        }
        Item::ArrayOfTables(a) => {
            let t = a.iter_mut().nth(index).ok_or("invalid destination".to_string())?;
            let mut item = Item::Table(std::mem::take(t));
            let merged = toml_doc::sync_items(&mut item, src);
            if let Item::Table(back) = item {
                *t = back;
            }
            merged.unwrap_or_else(|_| panic!("items dont match"));
        }
        _ => return Err("not array of tables".to_string()),
    }
    Ok(())
}

fn push(item: &mut Item, table: &Item) -> Result<(), String> {
    let table = table.as_table_like().ok_or("not a table".to_string())?;
    match item {
        Item::Value(Value::Array(a)) => {
            a.push(Table::from_iter(table.iter()).into_inline_table());
        }
        Item::ArrayOfTables(a) => a.push(Table::from_iter(table.iter())),
        _ => return Err("not array of tables".to_string()),
    }
    Ok(())
}

/// Brings the array of tables `dst` up to date with `src`, matching tables
/// by `identity`; must be called on each array separately.
fn sync_array<F>(dst: &mut Item, src: &Item, identity: F) -> Result<(), String>
where
    F: Fn(&dyn TableLike) -> Option<String>,
{
    let id = |t: &Item| t.as_table_like().and_then(|t| identity(t));
    let generated = tables(src)?;
    let written_ids: Vec<_> = tables(dst)?.iter().map(id).collect();
    let generated_ids: Vec<_> = generated.iter().map(id).collect();
    let plan = sync::sync_array(&written_ids, &generated_ids);
    for step in plan.steps {
        match step {
            ArrayStep::Merge(at, from) => merge_at(dst, at, &generated[from])?,
            ArrayStep::Push(from) => push(dst, &generated[from])?,
        }
    }
    let mut keep = plan.keep.into_iter();
    match dst {
        Item::Value(Value::Array(a)) => a.retain(|v| match v {
            Value::InlineTable(_) => keep.next().unwrap_or(false),
            _ => false,
        }),
        Item::ArrayOfTables(a) => a.retain(|_| keep.next().unwrap_or(false)),
        _ => return Err("invalid destination".to_string()),
    }
    Ok(())
}

fn id_of(key: &'static str) -> impl Fn(&dyn TableLike) -> Option<String> {
    move |t| t.get(key).and_then(|i| i.as_integer()).map(|i| i.to_string())
}

#[test]
fn test_sync_document_0() {
    let mut dst: DocumentMut = "# test comment\n[section]\nkey1 = \"value1\"\n".parse().unwrap();
    let src = "[section]\nkey1 = \"new_value\"\nkey2 = \"value2\"\n"
        .parse::<DocumentMut>()
        .unwrap();
    sync_document(&mut dst, &src);
    assert_eq!(
        dst.to_string(),
        "# test comment\n[section]\nkey1 = \"new_value\"\nkey2 = \"value2\"\n"
    );
}

#[test]
fn test_sync_document_1() {
    let mut dst: DocumentMut = "# test comment\n[section]\nkey1 = \"value1\"\nkey2 = \"value2\"\n"
        .parse()
        .unwrap();
    let src = "[section]\nkey1 = \"new_value\"\nkey2 = \"value3\"\n"
        .parse::<DocumentMut>()
        .unwrap();
    sync_document(&mut dst, &src);
    assert_eq!(
        dst.to_string(),
        "# test comment\n[section]\nkey1 = \"new_value\"\nkey2 = \"value3\"\n"
    );
}

#[test]
fn test_sync_document_2() {
    let mut dst: DocumentMut =
        "# test comment\n\nkey1 = \"value1\"\nkey2 = \"value2\"\n#test comment".parse().unwrap();
    let src = "\nkey1 = \"new_value\"\nkey2 = \"value3\"\n[section]\nkey = \"test\"\n"
        .parse::<DocumentMut>()
        .unwrap();
    sync_document(&mut dst, &src);
    assert_eq!(
        dst.to_string(),
        "# test comment\n\nkey1 = \"new_value\"\nkey2 = \"value3\"\n[section]\nkey = \"test\"\n#test comment"
    );
}

#[test]
fn test_sync_document_3() {
    let mut dst: DocumentMut = r#"
# test comment

key1 = "value1"
key2 = "value2"

[section]
test = 123
test2 = "value_2"
# test comment

[section_2]
test = 546
# test2 = "value_4"
"#
    .parse()
    .unwrap();
    let mut section = InlineTable::new();
    section.insert("test", 345.into());
    let mut section_2 = InlineTable::new();
    section_2.insert("test", 161.into());
    section_2.insert("test2", "value_2".into());
    let mut root = Table::new();
    root.insert("key1", toml_edit::value("new_value"));
    root.insert("key2", toml_edit::value("value3"));
    root.insert("section", toml_edit::value(section));
    root.insert("section_2", toml_edit::value(section_2));
    let src = DocumentMut::from(root);
    sync_document(&mut dst, &src);
    assert_eq!(
        dst.to_string(),
        r#"
# test comment

key1 = "new_value"
key2 = "value3"

[section]
test = 345
test2 = "value_2"
# test comment

[section_2]
test = 161
test2 = "value_2"
# test2 = "value_4"
"#
    );
}

#[test]
fn test_sync_document_array_1() {
    let mut dst: DocumentMut = r#"
# Comment
[[sections]]
test = 123
test3 = "value_2"
[[sections]]
test = 546
test2 = "value_4"
test3 = "value_8"
[[sections]]
test = 122
# Comment
"#
    .parse()
    .unwrap();
    let src: DocumentMut = r#"
[[sections]]
test = 123
test2 = "value_1"
[[sections]]
test = 546
test3 = "value_5"
"#
    .parse()
    .unwrap();
    sync_array(dst.get_mut("sections").unwrap(), src.get("sections").unwrap(), id_of("test"))
        .unwrap();
    assert_eq!(
        dst.to_string(),
        r#"
# Comment
[[sections]]
test = 123
test3 = "value_2"
test2 = "value_1"
[[sections]]
test = 546
test2 = "value_4"
test3 = "value_5"
# Comment
"#
    );
}

#[test]
fn test_sync_document_array_3() {
    let mut dst: DocumentMut = r#"
# Comment
test = "test" # test value
sections = [ { test = 123, test3 = "value_2",    }, { test = 546, test2 = "value_4", test3= "value_8"   }, { test = 122 } ]
# Comment
"#
    .parse()
    .unwrap();
    let src: DocumentMut = r#"
[[sections]]
test = 123
test2 = "value_1"
[[sections]]
test = 546
test3 = "value_5"
"#
    .parse()
    .unwrap();
    sync_array(dst.get_mut("sections").unwrap(), src.get("sections").unwrap(), id_of("test"))
        .unwrap();
    assert_eq!(
        dst.to_string(),
        r#"
# Comment
test = "test" # test value
sections = [ { test = 123, test3 = "value_2", test2 = "value_1",    }, { test = 546, test2 = "value_4", test3= "value_5"}]
# Comment
"#
    );
}

#[test]
fn test_sync_document_array_4() {
    let mut dst: DocumentMut = r#"
# Comment
test = "test" # test value
sections = [ { test = 123, test3 = "value_2",    }, { test = 546, test2 = "value_4", test3= "value_8"   }, { test = 122 } ]
# Comment
"#
    .parse()
    .unwrap();
    let src: DocumentMut = r#"
sections = [ { test = 123, test2 = "value_1" }, { test = 546, test3= "value_5" } ]
"#
    .parse()
    .unwrap();
    sync_array(dst.get_mut("sections").unwrap(), src.get("sections").unwrap(), id_of("test"))
        .unwrap();
    assert_eq!(
        dst.to_string(),
        r#"
# Comment
test = "test" # test value
sections = [ { test = 123, test3 = "value_2", test2 = "value_1" ,    }, { test = 546, test2 = "value_4", test3= "value_5" }]
# Comment
"#
    );
}

#[test]
fn test_sync_document_map_0() {
    let mut dst: DocumentMut = r#"
sources = { old = { name = "old", kind = "basic", extra = "remove" } }
"#
    .parse()
    .unwrap();
    let src: DocumentMut = r#"
sources = { new = { name = "new", kind = "simple" } }
"#
    .parse()
    .unwrap();
    sync_document(&mut dst, &src);
    assert_eq!(
        dst.to_string(),
        r#"
sources = { new = { name = "new", kind = "simple" } }
"#
    );
}

#[test]
fn test_sync_document_map_1() {
    let mut dst: DocumentMut = r#"
# Comment
sources = { alpha = { name = "alpha", kind = "old" } }
# sources = { alpha = { name = "alpha", kind = "old" } }
"#
    .parse()
    .unwrap();
    let src: DocumentMut = r#"
sources = { beta = { name = "beta", kind = "updated", extra = "added" } }
"#
    .parse()
    .unwrap();
    sync_document(&mut dst, &src);
    assert_eq!(
        dst.to_string(),
        r#"
# Comment
sources = { beta = { name = "beta", kind = "updated", extra = "added" } }
# sources = { alpha = { name = "alpha", kind = "old" } }
"#
    );
}

#[test]
fn test_sync_document_map_2() {
    let mut dst: DocumentMut = r#"
sources = { old_1 =    { name = "old_1", kind = "basic" },old_2 = { name =    "old_2", kind = "basic", extra = "remove" } }
# comment
"#
    .parse()
    .unwrap();
    let src: DocumentMut = r#"
sources = { new_1 = { name = "new_1", kind = "simple" }, new_2 = { name = "new_2", kind = "simple", extra = "added" } }
"#
    .parse()
    .unwrap();
    sync_document(&mut dst, &src);
    assert_eq!(
        dst.to_string(),
        r#"
sources = { new_1 = { name = "new_1", kind = "simple" }, new_2 = { name = "new_2", kind = "simple", extra = "added" } }
# comment
"#
    );
}

#[test]
fn test_sync_document_map_3() {
    let mut dst: DocumentMut = r#"
# Comment
sources = { first = { name = "first", kind = "old" }, second = { name = "second", kind = "old", extra = "remove" } }
# sources = { first = { name = "first", kind = "old" }, second = { name = "second", kind = "old", extra = "remove" } }
"#
    .parse()
    .unwrap();
    let src: DocumentMut = r#"
sources = { }
"#
    .parse()
    .unwrap();
    sync_document(&mut dst, &src);
    assert_eq!(
        dst.to_string(),
        r#"
# Comment
sources = { }
# sources = { first = { name = "first", kind = "old" }, second = { name = "second", kind = "old", extra = "remove" } }
"#
    );
}

#[test]
fn test_sync_document_map_4() {
    let mut dst: DocumentMut = r#"
sources = { }
"#
    .parse()
    .unwrap();
    let src: DocumentMut = r#"
sources = { one = { name = "one", kind = "updated" }, two = { name = "two", kind = "updated", extra = "added" } }
"#
    .parse()
    .unwrap();
    sync_document(&mut dst, &src);
    assert_eq!(
        dst.to_string(),
        r#"
sources = { one = { name = "one", kind = "updated" }, two = { name = "two", kind = "updated", extra = "added" } }
"#
    );
}

#[test]
fn sync_plan_paths_and_conflicts() {
    let written = vec![
        TomlEntry { path: vec!["a".into()], kind: ItemKind::Table },
        TomlEntry { path: vec!["a".into(), "x".into()], kind: ItemKind::Value },
        TomlEntry { path: vec!["b".into()], kind: ItemKind::Value },
    ];
    let generated = vec![
        TomlEntry { path: vec!["a".into()], kind: ItemKind::InlineTable },
        TomlEntry { path: vec!["a".into(), "x".into()], kind: ItemKind::Value },
        TomlEntry { path: vec!["a".into(), "y".into()], kind: ItemKind::InlineTable },
        TomlEntry { path: vec!["a".into(), "y".into(), "z".into()], kind: ItemKind::Value },
        TomlEntry { path: vec!["c".into()], kind: ItemKind::Table },
    ];
    assert!(sync::sync_compatible(&written, &generated));
    assert_eq!(
        sync::sync_document(&written, &generated),
        vec![
            vec!["a".to_string(), "x".to_string()],
            vec!["a".to_string(), "y".to_string()],
            vec!["c".to_string()]
        ]
    );
    let clash = vec![TomlEntry { path: vec!["a".into()], kind: ItemKind::Value }];
    assert!(!sync::sync_compatible(&written, &clash));
}

#[test]
fn array_plan_merges_pushes_and_drops() {
    let s = |v: &str| Some(v.to_string());
    let plan = sync::sync_array(&vec![s("1"), s("2"), s("3")], &vec![s("3"), s("4"), s("4")]);
    assert_eq!(
        plan.steps,
        vec![ArrayStep::Merge(2, 0), ArrayStep::Push(1), ArrayStep::Merge(3, 2)]
    );
    assert_eq!(plan.keep, vec![false, false, true, true]);
}

#[test]
fn array_plan_converges_after_one_round() {
    let s = |v: &str| Some(v.to_string());
    let written = vec![s("a"), s("b"), s("c")];
    let generated = vec![s("c"), s("d"), s("a")];
    let plan = sync::sync_array(&written, &generated);
    assert_eq!(
        plan.steps,
        vec![ArrayStep::Merge(2, 0), ArrayStep::Push(1), ArrayStep::Merge(0, 2)]
    );
    let mut current = written.clone();
    current.push(s("d"));
    let result: Vec<_> = current
        .into_iter()
        .zip(plan.keep.iter())
        .filter(|(_, k)| **k)
        .map(|(id, _)| id)
        .collect();
    assert_eq!(result, vec![s("a"), s("c"), s("d")]);
    let again = sync::sync_array(&result, &generated);
    assert_eq!(
        again.steps,
        vec![ArrayStep::Merge(1, 0), ArrayStep::Merge(2, 1), ArrayStep::Merge(0, 2)]
    );
    assert_eq!(again.keep, vec![true, true, true]);
}

#[test]
fn document_entries_list_paths_and_kinds_in_order() {
    let doc: DocumentMut = "a = 1\n[b]\nc = { d = 2 }\n[[e]]\nf = 3\n".parse().unwrap();
    let listed: Vec<(Vec<String>, ItemKind)> =
        toml_doc::entries(doc.as_item()).into_iter().map(|e| (e.path, e.kind)).collect();
    let p = |v: &[&str]| v.iter().map(|s| s.to_string()).collect::<Vec<_>>();
    assert_eq!(
        listed,
        vec![
            (p(&["a"]), ItemKind::Value),
            (p(&["b"]), ItemKind::Table),
            (p(&["b", "c"]), ItemKind::InlineTable),
            (p(&["b", "c", "d"]), ItemKind::Value),
            (p(&["e"]), ItemKind::ArrayOfTables),
        ]
    );
    let generated: DocumentMut = "a = 2\n[b]\nc = { d = 5 }\nx = 1\n".parse().unwrap();
    let plan = toml_doc::plan_document(doc.as_item(), generated.as_item()).unwrap();
    assert_eq!(plan, vec![p(&["a"]), p(&["b", "c"]), p(&["b", "x"])]);
    let clash: DocumentMut = "b = 1\n".parse().unwrap();
    assert!(toml_doc::plan_document(doc.as_item(), clash.as_item()).is_none());
}

#[test]
fn refused_sync_leaves_the_document_as_it_is() {
    let mut dst: DocumentMut = "# keep\n[a]\nx = 1\n".parse().unwrap();
    let src: DocumentMut = "a = 2\n".parse().unwrap();
    assert_eq!(
        toml_doc::sync_items(dst.as_item_mut(), src.as_item()),
        Err(toml_doc::SyncError::ItemsDontMatch)
    );
    assert_eq!(dst.to_string(), "# keep\n[a]\nx = 1\n");
    let src: DocumentMut = "[a]\nx = 3\ny = \"new\"\n".parse().unwrap();
    assert_eq!(toml_doc::sync_items(dst.as_item_mut(), src.as_item()), Ok(()));
    assert_eq!(dst.to_string(), "# keep\n[a]\nx = 3\ny = \"new\"\n");
}
