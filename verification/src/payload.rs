//! The payload validator: an untyped JSON body is parsed by an outside
//! parser, reduced to the plain values the validation rules read, and then
//! checked field by field into a typed progress update.

use vstd::prelude::*;

verus! {

/// What one top-level JSON value holds, reduced to what the validation rules
/// read: its characters when it is a string, its value when it is a number
/// representable as `u32`, `NumRange` when it is a number outside that range
/// (such values are rejected like wrong-typed ones), and `Other` for every
/// remaining kind of value.
pub enum JsonEntry {
    Str(String),
    Num(u32),
    NumRange,
    Other,
}

/// How parsing a request body ends: the bytes are not UTF-8 text, the text
/// is not JSON (with the parser's message), the document is not an object,
/// or the object's key/value pairs in document order.
pub enum ParseOutcome {
    BadEncoding,
    BadSyntax(String),
    NotObject,
    Object(Vec<(String, JsonEntry)>),
}

/// A validated progress update: required manga name, source label and
/// chapter number, and a page number that defaults to zero.
pub struct ProgressUpdate {
    pub manga: String,
    pub source: String,
    pub chapter: u32,
    pub page: u32,
}

/// The recognized fields of an update body.
#[derive(Clone, Copy, Debug, PartialEq, Eq, Structural)]
pub enum Field {
    Manga,
    Source,
    Chapter,
    Page,
}

/// Why a body was rejected: each variant names one cause, and the first
/// violation found wins.
#[derive(Debug)]
pub enum ValidationError {
    BadEncoding,
    BadSyntax(String),
    NotObject,
    WrongType(Field),
    MissingMandatory,
}

/// A progress update as a mathematical value.
pub ghost struct UpdateModel {
    pub manga: Seq<char>,
    pub source: Seq<char>,
    pub chapter: u32,
    pub page: u32,
}

impl View for ProgressUpdate {
    type V = UpdateModel;

    open spec fn view(&self) -> UpdateModel {
        UpdateModel {
            manga: self.manga@,
            source: self.source@,
            chapter: self.chapter,
            page: self.page,
        }
    }
}

/// A rejection cause as a mathematical value.
pub ghost enum ErrorModel {
    BadEncoding,
    BadSyntax(Seq<char>),
    NotObject,
    WrongType(Field),
    MissingMandatory,
}

impl View for ValidationError {
    type V = ErrorModel;

    open spec fn view(&self) -> ErrorModel {
        match *self {
            ValidationError::BadEncoding => ErrorModel::BadEncoding,
            ValidationError::BadSyntax(m) => ErrorModel::BadSyntax(m@),
            ValidationError::NotObject => ErrorModel::NotObject,
            ValidationError::WrongType(f) => ErrorModel::WrongType(f),
            ValidationError::MissingMandatory => ErrorModel::MissingMandatory,
        }
    }
}

/// What the parsed body of a request holds. The parse is a pure function of
/// the bytes, so its outcome bears a name that the contracts below share;
/// `parse_object` is the one place that computes it.
pub uninterp spec fn parsed_body_of(bytes: Seq<u8>) -> ParseOutcome;

/// Relies on `json::parse` to parse UTF-8 text as JSON, and on
/// `json::JsonValue::{is_string, as_str, is_number, as_u32}` and
/// `json::object::Object::iter` to read the parsed document into plain
/// values; the outcome depends on the bytes alone.
#[verifier::external_body]
fn parse_object(body: &[u8]) -> (r: ParseOutcome)
    ensures
        r == parsed_body_of(body@),
{
    let text = match std::str::from_utf8(body) {
        Ok(t) => t,
        Err(_) => return ParseOutcome::BadEncoding,
    };
    match json::parse(text) {
        Ok(json::JsonValue::Object(obj)) => ParseOutcome::Object(obj.iter().map(|(k, v)| (k.to_owned(),
            if v.is_string() { JsonEntry::Str(v.as_str().unwrap_or("").to_owned()) }
            else if v.is_number() { v.as_u32().map_or(JsonEntry::NumRange, JsonEntry::Num) }
            else { JsonEntry::Other })).collect()),
        Ok(_) => ParseOutcome::NotObject,
        Err(e) => ParseOutcome::BadSyntax(format!("{}", e)),
    }
}

/// The four optional slots a scan of the object fills.
pub ghost struct FieldsModel {
    pub manga: Option<Seq<char>>,
    pub source: Option<Seq<char>>,
    pub chapter: Option<u32>,
    pub page: Option<u32>,
}

/// The state before any pair has been read.
pub open spec fn empty_fields() -> FieldsModel {
    FieldsModel { manga: None, source: None, chapter: None, page: None }
}

/// Whether a key belongs to the recognized schema; every other key is
/// ignored.
pub open spec fn recognized_key(key: String) -> bool {
    ||| key@ == "manga"@
    ||| key@ == "source"@
    ||| key@ == "chapter"@
    ||| key@ == "page"@
}

/// The violation one pair carries, if any: a recognized key whose value is
/// not of the declared type. It depends on the pair alone, never on the
/// pairs around it.
pub open spec fn entry_violation(key: String, entry: JsonEntry) -> Option<Field> {
    if key@ == "manga"@ {
        if entry is Str { None } else { Some(Field::Manga) }
    } else if key@ == "source"@ {
        if entry is Str { None } else { Some(Field::Source) }
    } else if key@ == "chapter"@ {
        if entry is Num { None } else { Some(Field::Chapter) }
    } else if key@ == "page"@ {
        if entry is Num { None } else { Some(Field::Page) }
    } else {
        None
    }
}

/// How one violation-free pair changes the slots: a recognized key captures
/// its value, an unrecognized key changes nothing.
pub open spec fn apply_entry(f: FieldsModel, key: String, entry: JsonEntry) -> FieldsModel {
    if key@ == "manga"@ {
        FieldsModel { manga: Some(entry->Str_0@), ..f }
    } else if key@ == "source"@ {
        FieldsModel { source: Some(entry->Str_0@), ..f }
    } else if key@ == "chapter"@ {
        FieldsModel { chapter: Some(entry->Num_0), ..f }
    } else if key@ == "page"@ {
        FieldsModel { page: Some(entry->Num_0), ..f }
    } else {
        f
    }
}

/// Scans the pairs left to right from the slots `f`, failing at the first
/// pair that carries a violation.
pub open spec fn scan_entries(f: FieldsModel, entries: Seq<(String, JsonEntry)>) -> Result<
    FieldsModel,
    Field,
>
    decreases entries.len(),
{
    if entries.len() == 0 {
        Ok(f)
    } else {
        match entry_violation(entries[0].0, entries[0].1) {
            Some(fld) => Err(fld),
            None => scan_entries(apply_entry(f, entries[0].0, entries[0].1), entries.drop_first()),
        }
    }
}

/// Whether a required slot is still empty after the scan; `page` is not
/// required.
pub open spec fn mandatory_missing(f: FieldsModel) -> bool {
    ||| f.manga is None
    ||| f.source is None
    ||| f.chapter is None
}

/// The update the filled slots describe; an empty `page` slot defaults to
/// zero.
pub open spec fn update_of_fields(f: FieldsModel) -> UpdateModel {
    UpdateModel {
        manga: f.manga->0,
        source: f.source->0,
        chapter: f.chapter->0,
        page: match f.page {
            Some(p) => p,
            None => 0u32,
        },
    }
}

/// What validating an object's pairs returns: the first wrong-typed field,
/// else the missing-mandatory rejection, else the update itself.
pub open spec fn validate_entries_spec(entries: Seq<(String, JsonEntry)>) -> Result<
    UpdateModel,
    ErrorModel,
> {
    match scan_entries(empty_fields(), entries) {
        Err(fld) => Err(ErrorModel::WrongType(fld)),
        Ok(f) => if mandatory_missing(f) {
            Err(ErrorModel::MissingMandatory)
        } else {
            Ok(update_of_fields(f))
        },
    }
}

/// What validating a whole parse outcome returns: parse failures become the
/// matching rejection, an object goes through `validate_entries_spec`.
pub open spec fn validate_outcome_spec(o: ParseOutcome) -> Result<UpdateModel, ErrorModel> {
    match o {
        ParseOutcome::BadEncoding => Err(ErrorModel::BadEncoding),
        ParseOutcome::BadSyntax(m) => Err(ErrorModel::BadSyntax(m@)),
        ParseOutcome::NotObject => Err(ErrorModel::NotObject),
        ParseOutcome::Object(v) => validate_entries_spec(v@),
    }
}

/// The slots as the loop below holds them.
pub open spec fn fields_model(
    manga: Option<String>,
    source: Option<String>,
    chapter: Option<u32>,
    page: Option<u32>,
) -> FieldsModel {
    FieldsModel {
        manga: match manga {
            Some(s) => Some(s@),
            None => None,
        },
        source: match source {
            Some(s) => Some(s@),
            None => None,
        },
        chapter,
        page,
    }
}

/// String equality against a fixed key.
fn str_eq(a: &String, b: &str) -> (r: bool)
    ensures
        r == (a@ == b@),
{
    let b_owned: String = b.to_owned();
    *a == b_owned
}

/// Validates the key/value pairs of a parsed object into a progress update,
/// first wrong-typed field wins; `manga`, `source` and `chapter` are
/// mandatory, `page` defaults to zero, unrecognized keys are ignored.
pub fn validate_object(entries: &Vec<(String, JsonEntry)>) -> (r: Result<
    ProgressUpdate,
    ValidationError,
>)
    ensures
        match validate_entries_spec(entries@) {
            Ok(u) => r is Ok && r->Ok_0@ == u,
            Err(e) => r is Err && r->Err_0@ == e,
        },
{
    let mut manga: Option<String> = None;
    let mut source: Option<String> = None;
    let mut chapter: Option<u32> = None;
    let mut page: Option<u32> = None;
    let n: usize = entries.len();
    proof {
        assert(entries@.skip(0) =~= entries@);
    }
    let mut i: usize = 0;
    while i < n
        invariant
            n == entries@.len(),
            0 <= i <= n,
            scan_entries(fields_model(manga, source, chapter, page), entries@.skip(i as int))
                == scan_entries(empty_fields(), entries@),
        decreases n - i,
    {
        let key = &entries[i].0;
        let entry = &entries[i].1;
        proof {
            assert(entries@.skip(i as int)[0] == entries@[i as int]);
            assert(entries@.skip(i as int).drop_first() =~= entries@.skip(i as int + 1));
        }
        if str_eq(key, "manga") {
            match entry {
                JsonEntry::Str(s) => manga = Some(s.clone()),
                _ => return Err(ValidationError::WrongType(Field::Manga)),
            }
        } else if str_eq(key, "source") {
            match entry {
                JsonEntry::Str(s) => source = Some(s.clone()),
                _ => return Err(ValidationError::WrongType(Field::Source)),
            }
        } else if str_eq(key, "chapter") {
            match entry {
                JsonEntry::Num(c) => chapter = Some(*c),
                _ => return Err(ValidationError::WrongType(Field::Chapter)),
            }
        } else if str_eq(key, "page") {
            match entry {
                JsonEntry::Num(p) => page = Some(*p),
                _ => return Err(ValidationError::WrongType(Field::Page)),
            }
        }
        i = i + 1;
    }
    proof {
        assert(entries@.skip(n as int) =~= Seq::<(String, JsonEntry)>::empty());
    }
    if manga.is_none() || source.is_none() || chapter.is_none() {
        return Err(ValidationError::MissingMandatory);
    }
    Ok(ProgressUpdate {
        manga: manga.unwrap(),
        source: source.unwrap(),
        chapter: chapter.unwrap(),
        page: page.unwrap_or(0),
    })
}

proof fn lemma_scan_keeps_page(f: FieldsModel, entries: Seq<(String, JsonEntry)>)
    requires
        forall|k: int| 0 <= k < entries.len() ==> entries[k].0@ != "page"@,
    ensures
        scan_entries(f, entries) is Ok ==> scan_entries(f, entries)->Ok_0.page == f.page,
    decreases entries.len(),
{
    if entries.len() == 0 {
    } else {
        match entry_violation(entries[0].0, entries[0].1) {
            Some(_) => {},
            None => {
                let f2 = apply_entry(f, entries[0].0, entries[0].1);
                assert(f2.page == f.page);
                assert(forall|k: int|
                    0 <= k < entries.drop_first().len() ==> entries.drop_first()[k].0@ != "page"@);
                lemma_scan_keeps_page(f2, entries.drop_first());
            },
        }
    }
}

/// Law: when no pair of the object names `page`, an accepted update carries
/// the default page number zero.
pub proof fn lemma_page_defaults_to_zero(entries: Seq<(String, JsonEntry)>)
    requires
        forall|k: int| 0 <= k < entries.len() ==> entries[k].0@ != "page"@,
        validate_entries_spec(entries) is Ok,
    ensures
        validate_entries_spec(entries)->Ok_0.page == 0,
{
    lemma_scan_keeps_page(empty_fields(), entries);
}

proof fn lemma_keys_distinct()
    ensures
        "manga"@ != "source"@,
        "manga"@ != "chapter"@,
        "manga"@ != "page"@,
        "source"@ != "chapter"@,
        "source"@ != "page"@,
        "chapter"@ != "page"@,
{
    reveal_strlit("manga");
    reveal_strlit("source");
    reveal_strlit("chapter");
    reveal_strlit("page");
    assert("manga"@.len() == 5);
    assert("source"@.len() == 6);
    assert("chapter"@.len() == 7);
    assert("page"@.len() == 4);
}

proof fn lemma_scan_without_violation(f: FieldsModel, entries: Seq<(String, JsonEntry)>)
    requires
        forall|k: int| 0 <= k < entries.len() ==> entry_violation(entries[k].0, entries[k].1) is None,
    ensures
        scan_entries(f, entries) is Ok,
        scan_entries(f, entries)->Ok_0.manga is Some <==> (f.manga is Some || exists|k: int|
            0 <= k < entries.len() && entries[k].0@ == "manga"@),
        scan_entries(f, entries)->Ok_0.source is Some <==> (f.source is Some || exists|k: int|
            0 <= k < entries.len() && entries[k].0@ == "source"@),
        scan_entries(f, entries)->Ok_0.chapter is Some <==> (f.chapter is Some || exists|k: int|
            0 <= k < entries.len() && entries[k].0@ == "chapter"@),
    decreases entries.len(),
{
    lemma_keys_distinct();
    if entries.len() == 0 {
    } else {
        let rest = entries.drop_first();
        let f2 = apply_entry(f, entries[0].0, entries[0].1);
        lemma_scan_without_violation(f2, rest);
        assert forall|k: int| 1 <= k < entries.len() && entries[k].0@ == "manga"@ implies
            exists|m: int| 0 <= m < rest.len() && rest[m].0@ == "manga"@ by {
            assert(rest[k - 1] == entries[k]);
        }
        assert forall|k: int| 1 <= k < entries.len() && entries[k].0@ == "source"@ implies
            exists|m: int| 0 <= m < rest.len() && rest[m].0@ == "source"@ by {
            assert(rest[k - 1] == entries[k]);
        }
        assert forall|k: int| 1 <= k < entries.len() && entries[k].0@ == "chapter"@ implies
            exists|m: int| 0 <= m < rest.len() && rest[m].0@ == "chapter"@ by {
            assert(rest[k - 1] == entries[k]);
        }
    }
}

/// Law: a body whose recognized pairs are all of the declared types and
/// which names `manga`, `source` and `chapter` validates into an update.
pub proof fn lemma_complete_typed_body_accepted(entries: Seq<(String, JsonEntry)>)
    requires
        forall|k: int| 0 <= k < entries.len() ==> entry_violation(entries[k].0, entries[k].1) is None,
        exists|k: int| 0 <= k < entries.len() && entries[k].0@ == "manga"@,
        exists|k: int| 0 <= k < entries.len() && entries[k].0@ == "source"@,
        exists|k: int| 0 <= k < entries.len() && entries[k].0@ == "chapter"@,
    ensures
        validate_entries_spec(entries) is Ok,
{
    lemma_scan_without_violation(empty_fields(), entries);
}

/// Law: a body whose recognized pairs are all of the declared types but
/// which leaves out `manga`, `source` or `chapter` is rejected with the
/// missing-mandatory cause.
pub proof fn lemma_absent_mandatory_key_rejected(entries: Seq<(String, JsonEntry)>)
    requires
        forall|k: int| 0 <= k < entries.len() ==> entry_violation(entries[k].0, entries[k].1) is None,
        ({
            ||| !exists|k: int| 0 <= k < entries.len() && entries[k].0@ == "manga"@
            ||| !exists|k: int| 0 <= k < entries.len() && entries[k].0@ == "source"@
            ||| !exists|k: int| 0 <= k < entries.len() && entries[k].0@ == "chapter"@
        }),
    ensures
        validate_entries_spec(entries) == Err::<UpdateModel, ErrorModel>(
            ErrorModel::MissingMandatory,
        ),
{
    lemma_scan_without_violation(empty_fields(), entries);
}

proof fn lemma_scan_first_violation(f: FieldsModel, entries: Seq<(String, JsonEntry)>, i: int)
    requires
        0 <= i < entries.len(),
        entry_violation(entries[i].0, entries[i].1) is Some,
        forall|j: int| 0 <= j < i ==> entry_violation(entries[j].0, entries[j].1) is None,
    ensures
        scan_entries(f, entries) == Err::<FieldsModel, Field>(
            entry_violation(entries[i].0, entries[i].1)->0,
        ),
    decreases i,
{
    if i == 0 {
    } else {
        assert(forall|j: int|
            0 <= j < i - 1 ==> entry_violation(
                entries.drop_first()[j].0,
                entries.drop_first()[j].1,
            ) is None);
        assert(entries.drop_first()[i - 1] == entries[i]);
        lemma_scan_first_violation(
            apply_entry(f, entries[0].0, entries[0].1),
            entries.drop_first(),
            i - 1,
        );
    }
}

/// Law: validation fails with exactly the first wrong-typed field —
/// whatever violation-free pairs stand before it and whatever pairs follow.
pub proof fn lemma_first_violation_rejected(entries: Seq<(String, JsonEntry)>, i: int)
    requires
        0 <= i < entries.len(),
        entry_violation(entries[i].0, entries[i].1) is Some,
        forall|j: int| 0 <= j < i ==> entry_violation(entries[j].0, entries[j].1) is None,
    ensures
        validate_entries_spec(entries) == Err::<UpdateModel, ErrorModel>(
            ErrorModel::WrongType(entry_violation(entries[i].0, entries[i].1)->0),
        ),
{
    lemma_scan_first_violation(empty_fields(), entries, i);
}

proof fn lemma_scan_ignores_unrecognized(
    f: FieldsModel,
    entries: Seq<(String, JsonEntry)>,
    i: int,
    extra: (String, JsonEntry),
)
    requires
        0 <= i <= entries.len(),
        !recognized_key(extra.0),
    ensures
        scan_entries(f, entries.insert(i, extra)) == scan_entries(f, entries),
    decreases entries.len(),
{
    let ext = entries.insert(i, extra);
    if i == 0 {
        assert(ext[0] == extra);
        assert(entry_violation(extra.0, extra.1) is None);
        assert(apply_entry(f, extra.0, extra.1) == f);
        assert(ext.drop_first() =~= entries);
    } else {
        assert(ext[0] == entries[0]);
        match entry_violation(entries[0].0, entries[0].1) {
            Some(_) => {},
            None => {
                lemma_scan_ignores_unrecognized(
                    apply_entry(f, entries[0].0, entries[0].1),
                    entries.drop_first(),
                    i - 1,
                    extra,
                );
                assert(ext.drop_first() =~= entries.drop_first().insert(i - 1, extra));
            },
        }
    }
}

/// Law: a pair with an unrecognized key, inserted at any position, leaves
/// the outcome of validation unchanged.
pub proof fn lemma_unknown_fields_ignored(
    entries: Seq<(String, JsonEntry)>,
    i: int,
    extra: (String, JsonEntry),
)
    requires
        0 <= i <= entries.len(),
        !recognized_key(extra.0),
    ensures
        validate_entries_spec(entries.insert(i, extra)) == validate_entries_spec(entries),
{
    lemma_scan_ignores_unrecognized(empty_fields(), entries, i, extra);
}

/// Parses and validates a raw request body into a progress update; the
/// outcome is a function of the bytes alone.
pub fn parse_progress_update(body: &[u8]) -> (r: Result<ProgressUpdate, ValidationError>)
    ensures
        match validate_outcome_spec(parsed_body_of(body@)) {
            Ok(u) => r is Ok && r->Ok_0@ == u,
            Err(e) => r is Err && r->Err_0@ == e,
        },
{
    match parse_object(body) {
        ParseOutcome::BadEncoding => Err(ValidationError::BadEncoding),
        ParseOutcome::BadSyntax(m) => Err(ValidationError::BadSyntax(m)),
        ParseOutcome::NotObject => Err(ValidationError::NotObject),
        ParseOutcome::Object(entries) => validate_object(&entries),
    }
}

} // verus!
