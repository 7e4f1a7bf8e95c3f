//! Editing a project manifest (`sage.toml`): adding and removing git
//! dependencies in its `[dependencies]` table. The TOML document itself is
//! parsed, edited and written by `toml_edit`; which key holds the
//! dependencies and what an entry holds are decided here.

use vstd::prelude::*;

verus! {

/// The TOML document type of `toml_edit`.
#[verifier::external_type_specification]
#[verifier::external_body]
pub struct ExDocumentMut(toml_edit::DocumentMut);

/// What a key of a document's root table holds.
#[derive(Debug, Clone, Copy, PartialEq, Eq, Structural)]
pub enum DepsItem {
    /// Nothing (the key is missing or holds no item).
    Absent,
    /// A table (`[key]`).
    Table,
    /// An inline table (`key = { .. }`).
    InlineTable,
    /// Any other value.
    Other,
}

/// Why a manifest could not be edited.
#[derive(Debug, Clone, PartialEq, Eq)]
pub enum ManifestError {
    /// The text is not a TOML document; the parser's message.
    Parse(String),
    /// The `dependencies` key holds neither a table nor an inline table.
    DependenciesNotATable,
    /// The package is not in the `[dependencies]` table.
    NotFound,
}

/// Whether `toml_edit` parses the text as a document.
pub uninterp spec fn toml_parses(text: Seq<char>) -> bool;

/// The document `toml_edit` parses from a text.
pub uninterp spec fn toml_document(text: Seq<char>) -> toml_edit::DocumentMut;

/// The message `toml_edit` gives (its error's `Display`) for a text it
/// cannot parse.
pub uninterp spec fn toml_error_message(text: Seq<char>) -> Seq<char>;

/// The text `toml_edit` writes for a document.
pub uninterp spec fn document_text(d: toml_edit::DocumentMut) -> Seq<char>;

/// What the key `key` of the document's root table holds.
pub uninterp spec fn root_item(d: toml_edit::DocumentMut, key: Seq<char>) -> DepsItem;

/// The keys of the table (or inline table) under the root key `key`.
pub uninterp spec fn table_keys(d: toml_edit::DocumentMut, key: Seq<char>) -> Set<Seq<char>>;

/// The string fields of the entry `entry` of the table under the root key
/// `table`.
pub uninterp spec fn entry_fields(d: toml_edit::DocumentMut, table: Seq<char>, entry: Seq<char>) -> Map<
    Seq<char>,
    Seq<char>,
>;

/// The tables under root keys other than `key`, and the entries of the
/// table under `key` other than `entry`, are the same in `b` as in `a`.
pub open spec fn same_elsewhere(b: toml_edit::DocumentMut, a: toml_edit::DocumentMut, key: Seq<char>, entry: Seq<char>) -> bool {
    &&& forall|t: Seq<char>|
        t != key ==> #[trigger] root_item(b, t) == root_item(a, t) && table_keys(b, t) == table_keys(a, t)
    &&& forall|t: Seq<char>, e: Seq<char>|
        t != key ==> #[trigger] entry_fields(b, t, e) == entry_fields(a, t, e)
    &&& forall|e: Seq<char>| e != entry ==> #[trigger] entry_fields(b, key, e) == entry_fields(a, key, e)
}

/// The fields `k1 = v1` and `k2 = v2`, the second replacing the first if
/// the keys are equal.
pub open spec fn two_fields(k1: Seq<char>, v1: Seq<char>, k2: Seq<char>, v2: Seq<char>) -> Map<Seq<char>, Seq<char>> {
    Map::<Seq<char>, Seq<char>>::empty().insert(k1, v1).insert(k2, v2)
}

/// Parses a document with `toml_edit` (its `FromStr`); an error becomes the
/// parser's message. Claims that parsing succeeds exactly on the texts that
/// `toml_parses` names, giving the document `toml_document` names, and that
/// a failure carries the message `toml_error_message` names.
#[verifier::external_body]
fn parse_document(text: &str) -> (r: Result<toml_edit::DocumentMut, String>)
    ensures
        r is Ok <==> toml_parses(text@),
        r matches Ok(d) ==> d == toml_document(text@),
        r matches Err(m) ==> m@ == toml_error_message(text@),
{
    match text.parse::<toml_edit::DocumentMut>() {
        Ok(d) => Ok(d),
        Err(e) => Err(e.to_string()),
    }
}

/// Reads `Table::get(key)` on the document's root table and tells the
/// item's variants apart. Claims that the answer is what `root_item` names.
#[verifier::external_body]
fn root_item_of(doc: &toml_edit::DocumentMut, key: &str) -> (r: DepsItem)
    ensures
        r == root_item(*doc, key@),
{
    match doc.get(key) {
        None => DepsItem::Absent,
        Some(toml_edit::Item::Table(_)) => DepsItem::Table,
        Some(toml_edit::Item::Value(toml_edit::Value::InlineTable(_))) => DepsItem::InlineTable,
        Some(_) => DepsItem::Other,
    }
}

/// Sets the root key `key` to a new empty table (`IndexMut` on the
/// document, which never fails on its root table). Claims that afterwards
/// the key holds a table with no keys, and that no other root key changes.
#[verifier::external_body]
fn insert_empty_table(doc: &mut toml_edit::DocumentMut, key: &str)
    ensures
        root_item(*final(doc), key@) == DepsItem::Table,
        table_keys(*final(doc), key@) == Set::<Seq<char>>::empty(),
        forall|t: Seq<char>| t != key@ ==> #[trigger] root_item(*final(doc), t) == root_item(*old(doc), t),
        forall|t: Seq<char>| t != key@ ==> #[trigger] table_keys(*final(doc), t) == table_keys(*old(doc), t),
        forall|t: Seq<char>, e: Seq<char>|
            t != key@ ==> #[trigger] entry_fields(*final(doc), t, e) == entry_fields(*old(doc), t, e),
{
    doc[key] = toml_edit::Item::Table(toml_edit::Table::new());
}

/// Sets `<table>.<entry>` to the inline table `{ k1 = "v1", k2 = "v2" }`
/// (`InlineTable::insert` twice, then `IndexMut` on the document and on the
/// table's item, which succeeds on a table or an inline table and adds the
/// key when it is missing). Claims that the table keeps its kind, that the
/// entry becomes one of its keys with exactly those fields (the second
/// replacing the first if the keys are equal), and that nothing else changes.
#[verifier::external_body]
fn set_table_entry(
    doc: &mut toml_edit::DocumentMut,
    table: &str,
    entry: &str,
    k1: &str,
    v1: &str,
    k2: &str,
    v2: &str,
)
    requires
        root_item(*old(doc), table@) == DepsItem::Table || root_item(*old(doc), table@) == DepsItem::InlineTable,
    ensures
        root_item(*final(doc), table@) == root_item(*old(doc), table@),
        table_keys(*final(doc), table@) == table_keys(*old(doc), table@).insert(entry@),
        entry_fields(*final(doc), table@, entry@) == two_fields(k1@, v1@, k2@, v2@),
        same_elsewhere(*final(doc), *old(doc), table@, entry@),
{
    let mut fields = toml_edit::InlineTable::new();
    fields.insert(k1, v1.into());
    fields.insert(k2, v2.into());
    doc[table][entry] = toml_edit::value(fields);
}

/// Removes `entry` from the table under the root key `table`
/// (`get_mut(table)`, then `Table::remove`); an inline table or any other
/// item is left alone. Claims that an entry is removed exactly when the key
/// holds a table that has it, that otherwise nothing changes, and that a
/// removal changes nothing else.
#[verifier::external_body]
fn remove_table_entry(doc: &mut toml_edit::DocumentMut, table: &str, entry: &str) -> (r: bool)
    ensures
        r == (root_item(*old(doc), table@) == DepsItem::Table && table_keys(*old(doc), table@).contains(entry@)),
        r ==> root_item(*final(doc), table@) == DepsItem::Table,
        r ==> table_keys(*final(doc), table@) == table_keys(*old(doc), table@).remove(entry@),
        r ==> same_elsewhere(*final(doc), *old(doc), table@, entry@),
        !r ==> *final(doc) == *old(doc),
{
    match doc.get_mut(table) {
        Some(toml_edit::Item::Table(t)) => t.remove(entry).is_some(),
        _ => false,
    }
}

/// Writes a document as text (its `Display`). Claims that the text is what
/// `document_text` names.
#[verifier::external_body]
fn render_document(doc: &toml_edit::DocumentMut) -> (r: String)
    ensures
        r@ == document_text(*doc),
{
    doc.to_string()
}

/// The root key that holds a manifest's dependencies.
pub open spec fn deps_key() -> Seq<char> {
    "dependencies"@
}

/// `b` is `a` with the git dependency `package` added: the dependencies
/// table is created when there is none, the package's entry is
/// `{ git = git, <ref_kind> = ref_value }`, and everything else is as it was.
pub open spec fn dependency_added(
    a: toml_edit::DocumentMut,
    b: toml_edit::DocumentMut,
    package: Seq<char>,
    git: Seq<char>,
    ref_kind: Seq<char>,
    ref_value: Seq<char>,
) -> bool {
    &&& root_item(b, deps_key()) == (if root_item(a, deps_key()) == DepsItem::Absent {
        DepsItem::Table
    } else {
        root_item(a, deps_key())
    })
    &&& table_keys(b, deps_key()) == (if root_item(a, deps_key()) == DepsItem::Absent {
        Set::<Seq<char>>::empty()
    } else {
        table_keys(a, deps_key())
    }).insert(package)
    &&& entry_fields(b, deps_key(), package) == Map::<Seq<char>, Seq<char>>::empty().insert("git"@, git).insert(
        ref_kind,
        ref_value,
    )
    &&& forall|t: Seq<char>|
        t != deps_key() ==> #[trigger] root_item(b, t) == root_item(a, t) && table_keys(b, t) == table_keys(a, t)
    &&& forall|t: Seq<char>, e: Seq<char>|
        t != deps_key() ==> #[trigger] entry_fields(b, t, e) == entry_fields(a, t, e)
    &&& root_item(a, deps_key()) != DepsItem::Absent ==> forall|e: Seq<char>|
        e != package ==> #[trigger] entry_fields(b, deps_key(), e) == entry_fields(a, deps_key(), e)
}

/// `b` is `a` with `package` removed from its `[dependencies]` table.
pub open spec fn dependency_removed(a: toml_edit::DocumentMut, b: toml_edit::DocumentMut, package: Seq<char>) -> bool {
    &&& root_item(b, deps_key()) == DepsItem::Table
    &&& table_keys(b, deps_key()) == table_keys(a, deps_key()).remove(package)
    &&& same_elsewhere(b, a, deps_key(), package)
}

/// Add the git dependency `package` to a document, creating the
/// `[dependencies]` table when the document has none; its entry is
/// `{ git = "..", <ref_kind> = ".." }`.
pub fn add_dependency(doc: &mut toml_edit::DocumentMut, package: &str, git: &str, ref_kind: &str, ref_value: &str)
    requires
        root_item(*old(doc), deps_key()) != DepsItem::Other,
    ensures
        dependency_added(*old(doc), *final(doc), package@, git@, ref_kind@, ref_value@),
{
    proof {
        reveal_strlit("dependencies");
        reveal_strlit("git");
    }
    let ghost d0 = *doc;
    if root_item_of(doc, "dependencies") == DepsItem::Absent {
        insert_empty_table(doc, "dependencies");
    }
    let ghost d1 = *doc;
    set_table_entry(doc, "dependencies", package, "git", git, ref_kind, ref_value);
    proof {
        assert forall|t: Seq<char>|
            t != deps_key() implies #[trigger] root_item(*doc, t) == root_item(d0, t) && table_keys(*doc, t)
            == table_keys(d0, t) by {
            assert(root_item(*doc, t) == root_item(d1, t));
        }
        assert forall|t: Seq<char>, e: Seq<char>|
            t != deps_key() implies #[trigger] entry_fields(*doc, t, e) == entry_fields(d0, t, e) by {
            assert(entry_fields(*doc, t, e) == entry_fields(d1, t, e));
        }
    }
}

/// Remove `package` from a document's `[dependencies]` table; `NotFound`
/// when the document has no such table or the table has no such key.
pub fn remove_dependency(doc: &mut toml_edit::DocumentMut, package: &str) -> (r: Result<(), ManifestError>)
    ensures
        r is Ok <==> (root_item(*old(doc), deps_key()) == DepsItem::Table && table_keys(*old(doc), deps_key()).contains(
            package@,
        )),
        r is Ok ==> dependency_removed(*old(doc), *final(doc), package@),
        r is Err ==> r == Err::<(), ManifestError>(ManifestError::NotFound) && *final(doc) == *old(doc),
{
    proof {
        reveal_strlit("dependencies");
    }
    if remove_table_entry(doc, "dependencies", package) {
        Ok(())
    } else {
        Err(ManifestError::NotFound)
    }
}

/// Add the git dependency `package` (with the reference `ref_kind =
/// ref_value`) to the manifest text. It is done exactly when the text parses
/// and its `dependencies` key holds nothing, a table or an inline table; the
/// result is then the text of the parsed document with the dependency added.
pub fn add_dependency_to_manifest(text: &str, package: &str, git: &str, ref_kind: &str, ref_value: &str) -> (r: Result<
    String,
    ManifestError,
>)
    ensures
        !toml_parses(text@) <==> (r matches Err(ManifestError::Parse(_))),
        r matches Err(ManifestError::Parse(m)) ==> m@ == toml_error_message(text@),
        toml_parses(text@) ==> (r is Ok <==> root_item(toml_document(text@), deps_key()) != DepsItem::Other),
        toml_parses(text@) && r is Err ==> r == Err::<String, ManifestError>(ManifestError::DependenciesNotATable),
        r is Ok ==> exists|d: toml_edit::DocumentMut|
            #![trigger document_text(d)]
            document_text(d) == r->Ok_0@ && dependency_added(toml_document(text@), d, package@, git@, ref_kind@, ref_value@),
{
    proof {
        reveal_strlit("dependencies");
    }
    let mut doc = match parse_document(text) {
        Ok(d) => d,
        Err(message) => {
            return Err(ManifestError::Parse(message));
        },
    };
    if root_item_of(&doc, "dependencies") == DepsItem::Other {
        return Err(ManifestError::DependenciesNotATable);
    }
    add_dependency(&mut doc, package, git, ref_kind, ref_value);
    let out = render_document(&doc);
    assert(document_text(doc) == out@);
    Ok(out)
}

/// Remove `package` from the `[dependencies]` table of the manifest text.
/// It is done exactly when the text parses and its `dependencies` key holds
/// a table that has the package; the result is then the text of the parsed
/// document with the package removed.
pub fn remove_dependency_from_manifest(text: &str, package: &str) -> (r: Result<String, ManifestError>)
    ensures
        !toml_parses(text@) <==> (r matches Err(ManifestError::Parse(_))),
        r matches Err(ManifestError::Parse(m)) ==> m@ == toml_error_message(text@),
        toml_parses(text@) ==> (r is Ok <==> (root_item(toml_document(text@), deps_key()) == DepsItem::Table
            && table_keys(toml_document(text@), deps_key()).contains(package@))),
        toml_parses(text@) && r is Err ==> r == Err::<String, ManifestError>(ManifestError::NotFound),
        r is Ok ==> exists|d: toml_edit::DocumentMut|
            #![trigger document_text(d)]
            document_text(d) == r->Ok_0@ && dependency_removed(toml_document(text@), d, package@),
{
    let mut doc = match parse_document(text) {
        Ok(d) => d,
        Err(message) => {
            return Err(ManifestError::Parse(message));
        },
    };
    match remove_dependency(&mut doc, package) {
        Ok(()) => {
            let out = render_document(&doc);
            assert(document_text(doc) == out@);
            Ok(out)
        },
        Err(e) => Err(e),
    }
}

} // verus!
