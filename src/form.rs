//! The field model of a payload, the multipart form encoder, transport
//! selection and the JSON body encoder.

use vstd::prelude::*;

use crate::json::{
    bool_str, bool_text, decimal, json_quoted, json_text, member_text, members_text, quote_json,
    write_int, write_json, JsonValue,
};
use crate::types::{file_ref, InputFile};

verus! {

/// A value with a direct text form.
#[derive(Debug, Clone, PartialEq, Eq)]
pub enum Scalar {
    Int(i64),
    Bool(bool),
    Str(String),
}

/// A present field's value: a scalar, a structure sent as JSON, or a file.
#[derive(Debug)]
pub enum FieldValue {
    Scalar(Scalar),
    Structured(JsonValue),
    File(InputFile),
}

/// One named field of a payload; `None` when the field is absent.
#[derive(Debug)]
pub struct Field {
    pub name: String,
    pub value: Option<FieldValue>,
}

/// The content of a form part.
#[derive(Debug, Clone, PartialEq, Eq)]
pub enum PartValue {
    Text(String),
    Binary { data: Vec<u8>, file_name: String, mime_type: String },
}

/// One named part of a multipart form.
#[derive(Debug, Clone, PartialEq, Eq)]
pub struct FormPart {
    pub name: String,
    pub value: PartValue,
}

/// A form part's content, as plain sequences.
pub enum PartContent {
    Text(Seq<char>),
    Binary { data: Seq<u8>, file_name: Seq<char>, mime_type: Seq<char> },
}

impl View for FormPart {
    type V = (Seq<char>, PartContent);

    open spec fn view(&self) -> (Seq<char>, PartContent) {
        (
            self.name@,
            match self.value {
                PartValue::Text(t) => PartContent::Text(t@),
                PartValue::Binary { data, file_name, mime_type } => PartContent::Binary {
                    data: data@,
                    file_name: file_name@,
                    mime_type: mime_type@,
                },
            },
        )
    }
}

/// The file name given to uploaded bytes that come without one.
pub open spec fn default_file_name() -> Seq<char> {
    "file"@
}

/// The content type given to uploaded bytes.
pub open spec fn upload_mime_type() -> Seq<char> {
    "application/octet-stream"@
}

pub open spec fn scalar_text(s: Scalar) -> Seq<char> {
    match s {
        Scalar::Int(i) => decimal(i as int),
        Scalar::Bool(b) => bool_text(b),
        Scalar::Str(t) => t@,
    }
}

/// The form content of a present field's value.
pub open spec fn part_content(v: FieldValue) -> PartContent {
    match v {
        FieldValue::Scalar(s) => PartContent::Text(scalar_text(s)),
        FieldValue::Structured(j) => PartContent::Text(json_text(j)),
        FieldValue::File(f) => match f {
            InputFile::Memory { file_name, data } => PartContent::Binary {
                data: data@,
                file_name: match file_name {
                    Some(n) => n@,
                    None => default_file_name(),
                },
                mime_type: upload_mime_type(),
            },
            _ => PartContent::Text(file_ref(f)),
        },
    }
}

/// The part a field becomes: none when it is absent.
pub open spec fn part_of(f: Field) -> Option<(Seq<char>, PartContent)> {
    match f.value {
        Some(v) => Some((f.name@, part_content(v))),
        None => None,
    }
}

/// The form for a field list: one part per present field, in order.
pub open spec fn form_of(fs: Seq<Field>) -> Seq<(Seq<char>, PartContent)> {
    fs.filter_map(|f: Field| part_of(f))
}

/// A field whose value is a file with local bytes.
pub open spec fn is_local_file(f: Field) -> bool {
    match f.value {
        Some(FieldValue::File(InputFile::Memory { .. })) => true,
        _ => false,
    }
}

/// Some field carries local file bytes.
pub open spec fn has_local_file(fs: Seq<Field>) -> bool {
    exists|i: int| 0 <= i < fs.len() && is_local_file(#[trigger] fs[i])
}

/// Whether some field carries local file bytes, which only a multipart
/// body can transport.
pub fn needs_multipart(fields: &Vec<Field>) -> (r: bool)
    ensures
        r == has_local_file(fields@),
{
    let mut i: usize = 0;
    while i < fields.len()
        invariant
            i <= fields@.len(),
            forall|k: int| 0 <= k < i ==> !is_local_file(#[trigger] fields@[k]),
        decreases fields@.len() - i,
    {
        match &fields[i].value {
            Some(FieldValue::File(InputFile::Memory { .. })) => {
                return true;
            },
            _ => {},
        }
        i = i + 1;
    }
    false
}

fn scalar_string(s: &Scalar) -> (r: String)
    ensures
        r@ == scalar_text(*s),
{
    match s {
        Scalar::Int(i) => {
            let mut t = String::new();
            write_int(*i, &mut t);
            assert(t@ =~= decimal(*i as int));
            t
        },
        Scalar::Bool(b) => String::from_str(bool_str(*b)),
        Scalar::Str(t) => t.clone(),
    }
}

fn encode_part(name: &String, v: &FieldValue) -> (r: FormPart)
    ensures
        r@ == (name@, part_content(*v)),
{
    let value = match v {
        FieldValue::Scalar(s) => PartValue::Text(scalar_string(s)),
        FieldValue::Structured(j) => {
            let mut t = String::new();
            write_json(j, &mut t);
            assert(t@ =~= json_text(*j));
            PartValue::Text(t)
        },
        FieldValue::File(InputFile::FileId(s)) => PartValue::Text(s.clone()),
        FieldValue::File(InputFile::Url(s)) => PartValue::Text(s.clone()),
        FieldValue::File(InputFile::Memory { file_name, data }) => {
            let n = match file_name {
                Some(n) => n.clone(),
                None => String::from_str("file"),
            };
            let d = data.clone();
            assert(d@ =~= data@);
            PartValue::Binary { data: d, file_name: n, mime_type: String::from_str("application/octet-stream") }
        },
    };
    FormPart { name: name.clone(), value }
}

/// Encodes the fields as multipart form parts: absent fields are skipped,
/// present ones become one part each, in order. Local file bytes become a
/// binary part; file identifiers and URLs, scalars and structures become
/// text parts.
pub fn encode_form(fields: &Vec<Field>) -> (r: Vec<FormPart>)
    ensures
        r@.map_values(|p: FormPart| p@) == form_of(fields@),
{
    let mut parts: Vec<FormPart> = Vec::new();
    let mut i: usize = 0;
    while i < fields.len()
        invariant
            i <= fields@.len(),
            parts@.map_values(|p: FormPart| p@) == form_of(fields@.take(i as int)),
        decreases fields@.len() - i,
    {
        match &fields[i].value {
            Some(v) => {
                let p = encode_part(&fields[i].name, v);
                parts.push(p);
            },
            None => {},
        }
        proof {
            let t = fields@.take(i as int + 1);
            assert(t.drop_last() =~= fields@.take(i as int));
            assert(t.last() == fields@[i as int]);
            assert(parts@.map_values(|p: FormPart| p@) =~= form_of(t));
        }
        i = i + 1;
    }
    assert(fields@.take(i as int) =~= fields@);
    parts
}

/// The JSON value a present field takes in a JSON body. Local bytes have
/// none: such a payload goes out as a form.
pub open spec fn json_value_of(v: FieldValue) -> JsonValue {
    match v {
        FieldValue::Scalar(Scalar::Int(i)) => JsonValue::Int(i),
        FieldValue::Scalar(Scalar::Bool(b)) => JsonValue::Bool(b),
        FieldValue::Scalar(Scalar::Str(t)) => JsonValue::Str(t),
        FieldValue::Structured(j) => j,
        FieldValue::File(InputFile::FileId(s)) => JsonValue::Str(s),
        FieldValue::File(InputFile::Url(s)) => JsonValue::Str(s),
        FieldValue::File(InputFile::Memory { .. }) => JsonValue::Null,
    }
}

/// The member a field becomes in a JSON body: none when it is absent.
pub open spec fn json_member_of(f: Field) -> Option<(String, JsonValue)> {
    match f.value {
        Some(v) => Some((f.name, json_value_of(v))),
        None => None,
    }
}

/// The members of a JSON body: one per present field, in order.
pub open spec fn json_members(fs: Seq<Field>) -> Seq<(String, JsonValue)> {
    fs.filter_map(|f: Field| json_member_of(f))
}

/// The JSON document for a field list.
pub open spec fn json_body_text(fs: Seq<Field>) -> Seq<char> {
    seq!['{'] + members_text(json_members(fs)) + seq!['}']
}

fn write_value(v: &FieldValue, out: &mut String)
    requires
        !(*v is File && v->File_0 is Memory),
    ensures
        final(out)@ == old(out)@ + json_text(json_value_of(*v)),
{
    match v {
        FieldValue::Scalar(Scalar::Int(i)) => write_int(*i, out),
        FieldValue::Scalar(Scalar::Bool(b)) => out.append(bool_str(*b)),
        FieldValue::Scalar(Scalar::Str(t)) => out.append(quote_json(t.as_str()).as_str()),
        FieldValue::Structured(j) => write_json(j, out),
        FieldValue::File(InputFile::FileId(s)) => out.append(quote_json(s.as_str()).as_str()),
        FieldValue::File(InputFile::Url(s)) => out.append(quote_json(s.as_str()).as_str()),
        FieldValue::File(InputFile::Memory { .. }) => {},
    }
}

/// Serialises the fields as one JSON object: absent fields are left out,
/// scalars keep their JSON types, structures are nested, and files are
/// named by identifier or URL.
pub fn json_body(fields: &Vec<Field>) -> (r: String)
    requires
        !has_local_file(fields@),
    ensures
        r@ == json_body_text(fields@),
{
    proof {
        reveal_strlit("{");
        reveal_strlit("}");
    }
    let mut out = String::new();
    out.append("{");
    let ghost start = out@;
    let mut n: usize = 0;
    let mut i: usize = 0;
    while i < fields.len()
        invariant
            i <= fields@.len(),
            n == json_members(fields@.take(i as int)).len(),
            n <= i,
            !has_local_file(fields@),
            out@ == start + members_text(json_members(fields@.take(i as int))),
        decreases fields@.len() - i,
    {
        proof {
            reveal_strlit(",");
            reveal_strlit(":");
        }
        let ghost before = out@;
        let ghost t = fields@.take(i as int + 1);
        proof {
            assert(t.drop_last() =~= fields@.take(i as int));
            assert(t.last() == fields@[i as int]);
        }
        match &fields[i].value {
            Some(v) => {
                assert(!is_local_file(fields@[i as int]));
                if n > 0 {
                    out.append(",");
                }
                out.append(quote_json(fields[i].name.as_str()).as_str());
                out.append(":");
                let ghost mid = out@;
                write_value(v, &mut out);
                n = n + 1;
                proof {
                    let m = (fields@[i as int].name, json_value_of(*v));
                    assert(json_members(t) == json_members(fields@.take(i as int)).push(m));
                    assert(json_members(t).drop_last() =~= json_members(fields@.take(i as int)));
                    assert(out@ =~= before + (if n > 1 { seq![','] } else { seq![] }) + member_text(m));
                    assert(out@ =~= start + members_text(json_members(t)));
                }
            },
            None => {
                proof {
                    assert(json_members(t) == json_members(fields@.take(i as int)));
                }
            },
        }
        i = i + 1;
    }
    assert(fields@.take(i as int) =~= fields@);
    out.append("}");
    assert(out@ =~= json_body_text(fields@));
    out
}

/// An encoded request body.
#[derive(Debug)]
pub enum Body {
    /// A JSON document, sent as `application/json`.
    Json(String),
    /// Form parts, sent as `multipart/form-data`.
    Multipart(Vec<FormPart>),
}

/// Chooses the transport for the fields and encodes them for it: a form
/// exactly when some field carries local file bytes, a JSON document
/// otherwise.
pub fn encode_body(fields: &Vec<Field>) -> (r: Body)
    ensures
        r is Multipart <==> has_local_file(fields@),
        match r {
            Body::Json(t) => t@ == json_body_text(fields@),
            Body::Multipart(ps) => ps@.map_values(|p: FormPart| p@) == form_of(fields@),
        },
{
    if needs_multipart(fields) {
        Body::Multipart(encode_form(fields))
    } else {
        Body::Json(json_body(fields))
    }
}

/// The endpoint path of a method: `<base>/bot<token>/<method>`.
pub open spec fn method_url_spec(base: Seq<char>, token: Seq<char>, method: Seq<char>) -> Seq<char> {
    base + "/bot"@ + token + "/"@ + method
}

/// The URL that a call of `method` is posted to.
pub fn method_url(base: &str, token: &str, method: &str) -> (r: String)
    ensures
        r@ == method_url_spec(base@, token@, method@),
{
    let mut u = String::from_str(base);
    u.append("/bot");
    u.append(token);
    u.append("/");
    u.append(method);
    u
}

/// The names of the present fields, in order.
pub open spec fn present_names(fs: Seq<Field>) -> Seq<Seq<char>> {
    fs.filter_map(|f: Field| if f.value is Some { Some(f.name@) } else { None })
}

/// The part names of a form, in order.
pub open spec fn part_names(ps: Seq<(Seq<char>, PartContent)>) -> Seq<Seq<char>> {
    ps.map_values(|p: (Seq<char>, PartContent)| p.0)
}

/// No two fields share a name.
pub open spec fn distinct_names(fs: Seq<Field>) -> bool {
    forall|a: int, b: int| 0 <= a < b < fs.len() ==> (#[trigger] fs[a]).name@ != (#[trigger] fs[b]).name@
}

/// A part is in the form of a field list exactly when some field becomes
/// that part.
pub proof fn lemma_form_contains(fs: Seq<Field>, e: (Seq<char>, PartContent))
    ensures
        form_of(fs).contains(e) <==> exists|i: int| 0 <= i < fs.len() && part_of(#[trigger] fs[i]) == Some(e),
    decreases fs.len(),
{
    if fs.len() > 0 {
        let rest = fs.drop_last();
        lemma_form_contains(rest, e);
        if form_of(fs).contains(e) {
            if part_of(fs.last()) == Some(e) {
                assert(part_of(fs[fs.len() - 1]) == Some(e));
            } else {
                let k = choose|k: int| 0 <= k < form_of(fs).len() && form_of(fs)[k] == e;
                match part_of(fs.last()) {
                    Some(p) => {
                        assert(form_of(fs) == form_of(rest) + seq![p]);
                        assert(k < form_of(rest).len());
                        assert(form_of(rest)[k] == e);
                    },
                    None => {},
                }
                let i = choose|i: int| 0 <= i < rest.len() && part_of(#[trigger] rest[i]) == Some(e);
                assert(fs[i] == rest[i]);
            }
        }
        if exists|i: int| 0 <= i < fs.len() && part_of(#[trigger] fs[i]) == Some(e) {
            let i = choose|i: int| 0 <= i < fs.len() && part_of(#[trigger] fs[i]) == Some(e);
            if i == fs.len() - 1 {
                assert(form_of(fs) == form_of(rest) + seq![e]);
                assert(form_of(fs)[form_of(rest).len() as int] == e);
            } else {
                assert(rest[i] == fs[i]);
                let k = choose|k: int| 0 <= k < form_of(rest).len() && form_of(rest)[k] == e;
                match part_of(fs.last()) {
                    Some(p) => {
                        assert(form_of(fs) == form_of(rest) + seq![p]);
                        assert(form_of(fs)[k] == e);
                    },
                    None => {},
                }
            }
        }
    }
}

/// Form encoding omits every absent field and includes every present field
/// exactly once, under its own name: the part names are the names of the
/// present fields, in order; with distinct field names, a field's name
/// appears among the parts exactly when the field is present, and no part
/// name repeats.
pub proof fn lemma_form_names(fs: Seq<Field>)
    ensures
        part_names(form_of(fs)) == present_names(fs),
        distinct_names(fs) ==> forall|i: int|
            0 <= i < fs.len() ==> (part_names(form_of(fs)).contains((#[trigger] fs[i]).name@)
                <==> fs[i].value is Some),
        distinct_names(fs) ==> part_names(form_of(fs)).no_duplicates(),
    decreases fs.len(),
{
    if fs.len() > 0 {
        let rest = fs.drop_last();
        lemma_form_names(rest);
        assert(part_names(form_of(fs)) =~= present_names(fs));
    }
    if distinct_names(fs) {
        assert forall|i: int| 0 <= i < fs.len() implies (part_names(form_of(fs)).contains(
            (#[trigger] fs[i]).name@,
        ) <==> fs[i].value is Some) by {
            if fs[i].value is Some {
                let e = part_of(fs[i])->0;
                lemma_form_contains(fs, e);
                let k = choose|k: int| 0 <= k < form_of(fs).len() && form_of(fs)[k] == e;
                assert(part_names(form_of(fs))[k] == fs[i].name@);
            }
            if part_names(form_of(fs)).contains(fs[i].name@) {
                let k = choose|k: int|
                    0 <= k < part_names(form_of(fs)).len() && part_names(form_of(fs))[k] == fs[i].name@;
                let e = form_of(fs)[k];
                lemma_form_contains(fs, e);
                let j = choose|j: int| 0 <= j < fs.len() && part_of(#[trigger] fs[j]) == Some(e);
                assert(fs[j].name@ == fs[i].name@);
                assert(j == i);
            }
        }
        if fs.len() > 0 {
            let rest = fs.drop_last();
            assert(distinct_names(rest)) by {
                assert forall|a: int, b: int| 0 <= a < b < rest.len() implies (#[trigger] rest[a]).name@
                    != (#[trigger] rest[b]).name@ by {
                    assert(rest[a] == fs[a] && rest[b] == fs[b]);
                }
            }
            match part_of(fs.last()) {
                Some(p) => {
                    assert(form_of(fs) == form_of(rest) + seq![p]);
                    assert(part_names(form_of(fs)) =~= part_names(form_of(rest)).push(p.0));
                    if part_names(form_of(rest)).contains(p.0) {
                        let k = choose|k: int|
                            0 <= k < part_names(form_of(rest)).len() && part_names(form_of(rest))[k] == p.0;
                        let e = form_of(rest)[k];
                        lemma_form_contains(rest, e);
                        let j = choose|j: int| 0 <= j < rest.len() && part_of(#[trigger] rest[j]) == Some(e);
                        assert(fs[j] == rest[j]);
                        assert(fs[j].name@ == fs[fs.len() - 1].name@);
                    }
                },
                None => {
                    assert(form_of(fs) == form_of(rest));
                },
            }
        }
    }
}

/// Reading a form back recovers the present fields: a (name, content) pair
/// is among the parts exactly when some present field has that name and
/// encodes to that content, whatever the order.
pub proof fn lemma_form_round_trip(fs: Seq<Field>)
    ensures
        form_of(fs).to_set() == Set::new(
            |e: (Seq<char>, PartContent)|
                exists|i: int|
                    0 <= i < fs.len() && (#[trigger] fs[i]).value is Some && e == (
                        fs[i].name@,
                        part_content(fs[i].value->0),
                    ),
        ),
{
    assert forall|e: (Seq<char>, PartContent)| form_of(fs).to_set().contains(e) == (exists|i: int|
        0 <= i < fs.len() && (#[trigger] fs[i]).value is Some && e == (
            fs[i].name@,
            part_content(fs[i].value->0),
        )) by {
        lemma_form_contains(fs, e);
        if exists|i: int| 0 <= i < fs.len() && part_of(#[trigger] fs[i]) == Some(e) {
            let i = choose|i: int| 0 <= i < fs.len() && part_of(#[trigger] fs[i]) == Some(e);
            assert(fs[i].value is Some);
        }
    }
    assert(form_of(fs).to_set() =~= Set::new(
        |e: (Seq<char>, PartContent)|
            exists|i: int|
                0 <= i < fs.len() && (#[trigger] fs[i]).value is Some && e == (
                    fs[i].name@,
                    part_content(fs[i].value->0),
                ),
    ));
}

/// A file field that holds a remote URL is sent as a text part carrying the
/// URL, never as binary content.
pub proof fn lemma_url_file_is_text(fs: Seq<Field>, i: int, u: String)
    requires
        0 <= i < fs.len(),
        fs[i].value == Some(FieldValue::File(InputFile::Url(u))),
    ensures
        form_of(fs).contains((fs[i].name@, PartContent::Text(u@))),
        part_content(fs[i].value->0) is Text,
{
    lemma_form_contains(fs, (fs[i].name@, PartContent::Text(u@)));
}

/// A boolean field goes into a JSON body as the bare token `true` or
/// `false`, not as a string.
pub proof fn lemma_bool_is_json_token(f: Field, b: bool)
    requires
        f.value == Some(FieldValue::Scalar(Scalar::Bool(b))),
    ensures
        json_member_of(f) == Some((f.name, JsonValue::Bool(b))),
        json_text(JsonValue::Bool(b)) == (if b {
            seq!['t', 'r', 'u', 'e']
        } else {
            seq!['f', 'a', 'l', 's', 'e']
        }),
{
}

} // verus!
