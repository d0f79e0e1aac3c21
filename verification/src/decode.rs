//! Decoding of the cluster's responses: the typed index and alias catalog
//! records, the typed search result, and the connectivity verdict. The
//! decoders are tolerant exactly where the upstream API is loose — the
//! per-index document counters may be JSON `null`, which reads as absent —
//! and strict everywhere else: a missing or mistyped field fails the whole
//! call, naming the offending field.

use vstd::prelude::*;
use crate::error::ElasticSearchError;
use crate::json::{lookup, spec_lookup, Json};
use crate::parse::{json_of, parse_json};
use crate::text::{dec_of, push_dec, push_str};

verus! {

#[derive(Debug)]
pub struct ElasticSearchIndex {
    pub name: String,
    pub uuid: String,
    pub primary_shard_count: String,
    pub replica_shard_count: String,
    pub docs_count: Option<String>,
    pub docs_deleted_count: Option<String>,
    pub dataset_size: Option<String>,
}

pub struct SpecIndex {
    pub name: Seq<char>,
    pub uuid: Seq<char>,
    pub primary_shard_count: Seq<char>,
    pub replica_shard_count: Seq<char>,
    pub docs_count: Option<Seq<char>>,
    pub docs_deleted_count: Option<Seq<char>>,
    pub dataset_size: Option<Seq<char>>,
}

impl View for ElasticSearchIndex {
    type V = SpecIndex;

    open spec fn view(&self) -> SpecIndex {
        SpecIndex {
            name: self.name@,
            uuid: self.uuid@,
            primary_shard_count: self.primary_shard_count@,
            replica_shard_count: self.replica_shard_count@,
            docs_count: crate::auth::spec_opt_str(self.docs_count),
            docs_deleted_count: crate::auth::spec_opt_str(self.docs_deleted_count),
            dataset_size: crate::auth::spec_opt_str(self.dataset_size),
        }
    }
}

#[derive(Debug)]
pub struct ElasticSearchAlias {
    pub name: String,
    pub index_ref: String,
}

pub struct SpecAlias {
    pub name: Seq<char>,
    pub index_ref: Seq<char>,
}

impl View for ElasticSearchAlias {
    type V = SpecAlias;

    open spec fn view(&self) -> SpecAlias {
        SpecAlias { name: self.name@, index_ref: self.index_ref@ }
    }
}

#[derive(Debug)]
pub struct OperationSearchShardsUsed {
    pub failed: String,
    pub successful: String,
    pub total: String,
}

#[derive(Debug)]
pub struct OperationSearchHits {
    pub hits: Vec<Json>,
}

#[derive(Debug)]
pub struct OperationSearchResult {
    pub time_took_ms: String,
    pub timed_out: bool,
    pub shards_used: OperationSearchShardsUsed,
    pub hits: OperationSearchHits,
    pub aggregations: Option<Json>,
}

// ---------------------------------------------------------------- fields

/// The value of the field `key` of a JSON object; nothing on any other
/// shape of value.
pub open spec fn spec_field(j: Json, key: Seq<char>) -> Option<Json> {
    match j {
        Json::Obj(fields) => spec_lookup(fields@, key),
        _ => None,
    }
}

/// The text of a string-typed field; nothing where the field is absent or
/// not a string.
pub open spec fn spec_str_field(j: Json, key: Seq<char>) -> Option<Seq<char>> {
    match spec_field(j, key) {
        Some(Json::Str(s)) => Some(s@),
        _ => None,
    }
}

/// The text of a number-typed field.
pub open spec fn spec_num_field(j: Json, key: Seq<char>) -> Option<Seq<char>> {
    match spec_field(j, key) {
        Some(Json::Num(s)) => Some(s@),
        _ => None,
    }
}

/// The value of a boolean-typed field.
pub open spec fn spec_bool_field(j: Json, key: Seq<char>) -> Option<bool> {
    match spec_field(j, key) {
        Some(Json::Bool(b)) => Some(b),
        _ => None,
    }
}

/// The tolerant reading of an optional counter field: absent or `null`
/// reads as absent, a string as present, and any other shape is an error.
pub open spec fn spec_tolerant_field(j: Json, key: Seq<char>) -> Result<Option<Seq<char>>, ()> {
    match spec_field(j, key) {
        None => Ok(None),
        Some(Json::Null) => Ok(None),
        Some(Json::Str(s)) => Ok(Some(s@)),
        Some(_) => Err(()),
    }
}

fn get_str_field<'a>(j: &'a Json, key: &str) -> (r: Option<&'a String>)
    ensures
        match r {
            Some(s) => spec_str_field(*j, key@) == Some(s@),
            None => spec_str_field(*j, key@) is None,
        },
{
    match j {
        Json::Obj(fields) => match lookup(fields, key) {
            Some(v) => match v {
                Json::Str(s) => Some(s),
                _ => None,
            },
            None => None,
        },
        _ => None,
    }
}

fn get_num_field<'a>(j: &'a Json, key: &str) -> (r: Option<&'a String>)
    ensures
        match r {
            Some(s) => spec_num_field(*j, key@) == Some(s@),
            None => spec_num_field(*j, key@) is None,
        },
{
    match j {
        Json::Obj(fields) => match lookup(fields, key) {
            Some(v) => match v {
                Json::Num(s) => Some(s),
                _ => None,
            },
            None => None,
        },
        _ => None,
    }
}

fn get_bool_field(j: &Json, key: &str) -> (r: Option<bool>)
    ensures
        r == spec_bool_field(*j, key@),
{
    match j {
        Json::Obj(fields) => match lookup(fields, key) {
            Some(v) => match v {
                Json::Bool(b) => Some(*b),
                _ => None,
            },
            None => None,
        },
        _ => None,
    }
}

fn get_tolerant_field<'a>(j: &'a Json, key: &str) -> (r: Result<Option<&'a String>, ()>)
    ensures
        match r {
            Ok(Some(s)) => spec_tolerant_field(*j, key@) == Ok::<Option<Seq<char>>, ()>(
                Some(s@),
            ),
            Ok(None) => spec_tolerant_field(*j, key@) == Ok::<Option<Seq<char>>, ()>(None),
            Err(_) => spec_tolerant_field(*j, key@) is Err,
        },
{
    match j {
        Json::Obj(fields) => match lookup(fields, key) {
            Some(v) => match v {
                Json::Null => Ok(None),
                Json::Str(s) => Ok(Some(s)),
                _ => Err(()),
            },
            None => Ok(None),
        },
        _ => Ok(None),
    }
}

/// Finds the position of the first field named `key` of an object's field
/// list.
fn find_field(fields: &Vec<(String, Json)>, key: &str) -> (r: Option<usize>)
    ensures
        match r {
            Some(i) => i < fields@.len() && fields@[i as int].0@ == key@ && spec_lookup(
                fields@,
                key@,
            ) == Some(fields@[i as int].1),
            None => spec_lookup(fields@, key@) is None,
        },
{
    let mut i: usize = 0;
    proof {
        assert(fields@.skip(0) =~= fields@);
    }
    while i < fields.len()
        invariant
            i <= fields@.len(),
            spec_lookup(fields@, key@) == spec_lookup(fields@.skip(i as int), key@),
        decreases fields@.len() - i,
    {
        if crate::text::str_eq(fields[i].0.as_str(), key) {
            proof {
                assert(fields@.skip(i as int)[0] == fields@[i as int]);
            }
            return Some(i);
        }
        proof {
            assert(fields@.skip(i as int).drop_first() =~= fields@.skip(i + 1));
        }
        i = i + 1;
    }
    proof {
        assert(fields@.skip(fields@.len() as int).len() == 0);
    }
    None
}

/// Removing a field with one name leaves the lookup of every other name as
/// it was.
proof fn lemma_lookup_after_remove(fields: Seq<(String, Json)>, i: int, key: Seq<char>)
    requires
        0 <= i < fields.len(),
        key != fields[i].0@,
    ensures
        spec_lookup(fields.remove(i), key) == spec_lookup(fields, key),
    decreases i,
{
    if i == 0 {
        assert(fields.remove(0) =~= fields.drop_first());
    } else {
        lemma_lookup_after_remove(fields.drop_first(), i - 1, key);
        assert(fields.remove(i).drop_first() =~= fields.drop_first().remove(i - 1));
        assert(fields.remove(i)[0] == fields[0]);
    }
}

// ---------------------------------------------------------- connectivity

/// The connectivity verdict for an HTTP status: any 2xx status passes, any
/// other is a terminal failure whose message carries the status number.
pub fn test_connection_response(status: u16) -> (r: Result<(), ElasticSearchError>)
    ensures
        r is Ok <==> 200 <= status < 300,
        r matches Err(e) ==> e.message@ == "unexpected http status: "@ + dec_of(status as int)
            && e.spec_causes().len() == 0,
{
    if 200 <= status && status < 300 {
        Ok(())
    } else {
        let mut m = "unexpected http status: ".to_owned();
        push_dec(&mut m, status as u64);
        Err(ElasticSearchError::new(m))
    }
}

// ---------------------------------------------------------------- index

/// Whether a JSON value is a well-formed index catalog record.
pub open spec fn spec_index_ok(j: Json) -> bool {
    &&& spec_str_field(j, "index"@) is Some
    &&& spec_str_field(j, "uuid"@) is Some
    &&& spec_str_field(j, "pri"@) is Some
    &&& spec_str_field(j, "rep"@) is Some
    &&& spec_tolerant_field(j, "docs.count"@) is Ok
    &&& spec_tolerant_field(j, "docs.deleted"@) is Ok
    &&& spec_tolerant_field(j, "dataset.size"@) is Ok
}

/// The first field, in decoding order, on which an index record fails.
pub open spec fn spec_index_err_field(j: Json) -> Seq<char> {
    if spec_str_field(j, "index"@) is None {
        "index"@
    } else if spec_str_field(j, "uuid"@) is None {
        "uuid"@
    } else if spec_str_field(j, "pri"@) is None {
        "pri"@
    } else if spec_str_field(j, "rep"@) is None {
        "rep"@
    } else if spec_tolerant_field(j, "docs.count"@) is Err {
        "docs.count"@
    } else if spec_tolerant_field(j, "docs.deleted"@) is Err {
        "docs.deleted"@
    } else {
        "dataset.size"@
    }
}

/// How a decoded index record corresponds to its JSON form.
pub open spec fn spec_index_matches(rec: SpecIndex, j: Json) -> bool {
    &&& Some(rec.name) == spec_str_field(j, "index"@)
    &&& Some(rec.uuid) == spec_str_field(j, "uuid"@)
    &&& Some(rec.primary_shard_count) == spec_str_field(j, "pri"@)
    &&& Some(rec.replica_shard_count) == spec_str_field(j, "rep"@)
    &&& Ok::<Option<Seq<char>>, ()>(rec.docs_count) == spec_tolerant_field(j, "docs.count"@)
    &&& Ok::<Option<Seq<char>>, ()>(rec.docs_deleted_count) == spec_tolerant_field(
        j,
        "docs.deleted"@,
    )
    &&& Ok::<Option<Seq<char>>, ()>(rec.dataset_size) == spec_tolerant_field(j, "dataset.size"@)
}

fn record_err(kind: &str, field: &str) -> (r: ElasticSearchError)
    ensures
        r.message@ == kind@ + field@,
        r.spec_causes().len() == 0,
{
    let mut m = kind.to_owned();
    push_str(&mut m, field);
    ElasticSearchError::new(m)
}

/// Decodes one index catalog record.
pub fn decode_index(j: &Json) -> (r: Result<ElasticSearchIndex, ElasticSearchError>)
    ensures
        r is Ok <==> spec_index_ok(*j),
        r matches Ok(rec) ==> spec_index_matches(rec@, *j),
        r matches Err(e) ==> e.message@ == "invalid index record, field "@ + spec_index_err_field(
            *j,
        ) && e.spec_causes().len() == 0,
{
    let name = match get_str_field(j, "index") {
        Some(s) => s.clone(),
        None => {
            return Err(record_err("invalid index record, field ", "index"));
        },
    };
    let uuid = match get_str_field(j, "uuid") {
        Some(s) => s.clone(),
        None => {
            return Err(record_err("invalid index record, field ", "uuid"));
        },
    };
    let primary_shard_count = match get_str_field(j, "pri") {
        Some(s) => s.clone(),
        None => {
            return Err(record_err("invalid index record, field ", "pri"));
        },
    };
    let replica_shard_count = match get_str_field(j, "rep") {
        Some(s) => s.clone(),
        None => {
            return Err(record_err("invalid index record, field ", "rep"));
        },
    };
    let docs_count = match get_tolerant_field(j, "docs.count") {
        Ok(Some(s)) => Some(s.clone()),
        Ok(None) => None,
        Err(_) => {
            return Err(record_err("invalid index record, field ", "docs.count"));
        },
    };
    let docs_deleted_count = match get_tolerant_field(j, "docs.deleted") {
        Ok(Some(s)) => Some(s.clone()),
        Ok(None) => None,
        Err(_) => {
            return Err(record_err("invalid index record, field ", "docs.deleted"));
        },
    };
    let dataset_size = match get_tolerant_field(j, "dataset.size") {
        Ok(Some(s)) => Some(s.clone()),
        Ok(None) => None,
        Err(_) => {
            return Err(record_err("invalid index record, field ", "dataset.size"));
        },
    };
    Ok(
        ElasticSearchIndex {
            name,
            uuid,
            primary_shard_count,
            replica_shard_count,
            docs_count,
            docs_deleted_count,
            dataset_size,
        },
    )
}

/// A record whose `docs.count` is JSON `null` decodes with an absent
/// count, and one whose `docs.count` is a string decodes with exactly that
/// string; the same tolerance governs `docs.deleted` and `dataset.size`.
pub proof fn lemma_docs_count_tolerance(rec: ElasticSearchIndex, j: Json)
    requires
        spec_index_matches(rec@, j),
    ensures
        spec_field(j, "docs.count"@) == Some(Json::Null) ==> rec@.docs_count is None,
        match spec_field(j, "docs.count"@) {
            Some(Json::Str(s)) => rec@.docs_count == Some(s@),
            _ => true,
        },
{
}

/// A record whose `docs.count` is present but neither `null` nor a string
/// — a number, an object, anything else — is not a well-formed index
/// record: decoding it fails.
pub proof fn lemma_docs_count_rejects(j: Json)
    requires
        spec_field(j, "docs.count"@) matches Some(v) && !(v matches Json::Null) && !(v
            matches Json::Str(_)),
    ensures
        !spec_index_ok(j),
{
}

/// Whether a JSON value is a well-formed index catalog response: an array
/// of well-formed records.
pub open spec fn spec_index_list_ok(j: Json) -> bool {
    match j {
        Json::Arr(elems) => forall|i: int| 0 <= i < elems.len() ==> spec_index_ok(elems[i]),
        _ => false,
    }
}

/// The position of the first ill-formed index record at or after `i`, or
/// the array's length where every record from `i` on is well-formed.
pub open spec fn spec_index_first_bad(elems: Vec<Json>, i: int) -> int
    decreases elems.len() - i,
{
    if i < 0 || i >= elems.len() {
        elems.len() as int
    } else if !spec_index_ok(elems[i]) {
        i
    } else {
        spec_index_first_bad(elems, i + 1)
    }
}

proof fn lemma_index_first_bad_at(elems: Vec<Json>, j: int, i: int)
    requires
        0 <= j <= i < elems.len(),
        forall|k: int| j <= k < i ==> spec_index_ok(elems[k]),
        !spec_index_ok(elems[i]),
    ensures
        spec_index_first_bad(elems, j) == i,
    decreases i - j,
{
    if j < i {
        lemma_index_first_bad_at(elems, j + 1, i);
    }
}

/// How a decoded index list corresponds to its JSON form.
pub open spec fn spec_index_list_matches(v: Seq<ElasticSearchIndex>, j: Json) -> bool {
    match j {
        Json::Arr(elems) => v.len() == elems.len() && (forall|i: int|
            0 <= i < v.len() ==> spec_index_matches(v[i]@, elems[i])),
        _ => false,
    }
}

/// Decodes the index catalog response. One bad record fails the whole
/// call — partial success is not returned — and the error names the
/// first bad record's offending field.
#[verifier::loop_isolation(false)]
pub fn decode_indicies(body: &str) -> (r: Result<Vec<ElasticSearchIndex>, ElasticSearchError>)
    ensures
        match json_of(body@) {
            None => r matches Err(e) && e.message@ == "invalid json"@,
            Some(j) => {
                &&& (r is Ok <==> spec_index_list_ok(j))
                &&& (r matches Ok(v) ==> spec_index_list_matches(v@, j))
                &&& (r matches Err(e) ==> match j {
                    Json::Arr(elems) => {
                        let k = spec_index_first_bad(elems, 0);
                        &&& k < elems.len()
                        &&& e.message@ == "invalid index record, field "@ + spec_index_err_field(
                            elems[k],
                        )
                        &&& e.spec_causes().len() == 0
                    },
                    _ => e.message@ == "expected a json array"@ && e.spec_causes().len() == 0,
                })
            },
        },
{
    let parsed = match parse_json(body) {
        Ok(j) => j,
        Err(e) => {
            return Err(e);
        },
    };
    let elems = match &parsed {
        Json::Arr(v) => v,
        _ => {
            return Err(ElasticSearchError::new("expected a json array".to_owned()));
        },
    };
    let mut out: Vec<ElasticSearchIndex> = Vec::new();
    let mut i: usize = 0;
    while i < elems.len()
        invariant
            i <= elems@.len(),
            out@.len() == i,
            forall|k: int|
                0 <= k < i ==> spec_index_ok(elems@[k]) && spec_index_matches(
                    out@[k]@,
                    elems@[k],
                ),
        decreases elems@.len() - i,
    {
        match decode_index(&elems[i]) {
            Ok(rec) => {
                out.push(rec);
            },
            Err(e) => {
                proof {
                    assert(!spec_index_ok(elems@[i as int]));
                    lemma_index_first_bad_at(*elems, 0, i as int);
                }
                return Err(e);
            },
        }
        i = i + 1;
    }
    Ok(out)
}

// ---------------------------------------------------------------- alias

/// Whether a JSON value is a well-formed alias catalog record.
pub open spec fn spec_alias_ok(j: Json) -> bool {
    &&& spec_str_field(j, "alias"@) is Some
    &&& spec_str_field(j, "index"@) is Some
}

/// The first field, in decoding order, on which an alias record fails.
pub open spec fn spec_alias_err_field(j: Json) -> Seq<char> {
    if spec_str_field(j, "alias"@) is None {
        "alias"@
    } else {
        "index"@
    }
}

/// How a decoded alias record corresponds to its JSON form.
pub open spec fn spec_alias_matches(rec: SpecAlias, j: Json) -> bool {
    &&& Some(rec.name) == spec_str_field(j, "alias"@)
    &&& Some(rec.index_ref) == spec_str_field(j, "index"@)
}

/// Decodes one alias catalog record: an alias name and the one index it
/// refers to (an alias spanning several indices appears as several
/// records).
pub fn decode_alias(j: &Json) -> (r: Result<ElasticSearchAlias, ElasticSearchError>)
    ensures
        r is Ok <==> spec_alias_ok(*j),
        r matches Ok(rec) ==> spec_alias_matches(rec@, *j),
        r matches Err(e) ==> e.message@ == "invalid alias record, field "@ + spec_alias_err_field(
            *j,
        ) && e.spec_causes().len() == 0,
{
    let name = match get_str_field(j, "alias") {
        Some(s) => s.clone(),
        None => {
            return Err(record_err("invalid alias record, field ", "alias"));
        },
    };
    let index_ref = match get_str_field(j, "index") {
        Some(s) => s.clone(),
        None => {
            return Err(record_err("invalid alias record, field ", "index"));
        },
    };
    Ok(ElasticSearchAlias { name, index_ref })
}

/// Whether a JSON value is a well-formed alias catalog response.
pub open spec fn spec_alias_list_ok(j: Json) -> bool {
    match j {
        Json::Arr(elems) => forall|i: int| 0 <= i < elems.len() ==> spec_alias_ok(elems[i]),
        _ => false,
    }
}

/// The position of the first ill-formed alias record at or after `i`, or
/// the array's length where every record from `i` on is well-formed.
pub open spec fn spec_alias_first_bad(elems: Vec<Json>, i: int) -> int
    decreases elems.len() - i,
{
    if i < 0 || i >= elems.len() {
        elems.len() as int
    } else if !spec_alias_ok(elems[i]) {
        i
    } else {
        spec_alias_first_bad(elems, i + 1)
    }
}

proof fn lemma_alias_first_bad_at(elems: Vec<Json>, j: int, i: int)
    requires
        0 <= j <= i < elems.len(),
        forall|k: int| j <= k < i ==> spec_alias_ok(elems[k]),
        !spec_alias_ok(elems[i]),
    ensures
        spec_alias_first_bad(elems, j) == i,
    decreases i - j,
{
    if j < i {
        lemma_alias_first_bad_at(elems, j + 1, i);
    }
}

/// How a decoded alias list corresponds to its JSON form.
pub open spec fn spec_alias_list_matches(v: Seq<ElasticSearchAlias>, j: Json) -> bool {
    match j {
        Json::Arr(elems) => v.len() == elems.len() && (forall|i: int|
            0 <= i < v.len() ==> spec_alias_matches(v[i]@, elems[i])),
        _ => false,
    }
}

/// Decodes the alias catalog response; as with indices, one bad record
/// fails the whole call, and the error names the first bad record's
/// offending field.
#[verifier::loop_isolation(false)]
pub fn decode_aliases(body: &str) -> (r: Result<Vec<ElasticSearchAlias>, ElasticSearchError>)
    ensures
        match json_of(body@) {
            None => r matches Err(e) && e.message@ == "invalid json"@,
            Some(j) => {
                &&& (r is Ok <==> spec_alias_list_ok(j))
                &&& (r matches Ok(v) ==> spec_alias_list_matches(v@, j))
                &&& (r matches Err(e) ==> match j {
                    Json::Arr(elems) => {
                        let k = spec_alias_first_bad(elems, 0);
                        &&& k < elems.len()
                        &&& e.message@ == "invalid alias record, field "@ + spec_alias_err_field(
                            elems[k],
                        )
                        &&& e.spec_causes().len() == 0
                    },
                    _ => e.message@ == "expected a json array"@ && e.spec_causes().len() == 0,
                })
            },
        },
{
    let parsed = match parse_json(body) {
        Ok(j) => j,
        Err(e) => {
            return Err(e);
        },
    };
    let elems = match &parsed {
        Json::Arr(v) => v,
        _ => {
            return Err(ElasticSearchError::new("expected a json array".to_owned()));
        },
    };
    let mut out: Vec<ElasticSearchAlias> = Vec::new();
    let mut i: usize = 0;
    while i < elems.len()
        invariant
            i <= elems@.len(),
            out@.len() == i,
            forall|k: int|
                0 <= k < i ==> spec_alias_ok(elems@[k]) && spec_alias_matches(
                    out@[k]@,
                    elems@[k],
                ),
        decreases elems@.len() - i,
    {
        match decode_alias(&elems[i]) {
            Ok(rec) => {
                out.push(rec);
            },
            Err(e) => {
                proof {
                    assert(!spec_alias_ok(elems@[i as int]));
                    lemma_alias_first_bad_at(*elems, 0, i as int);
                }
                return Err(e);
            },
        }
        i = i + 1;
    }
    Ok(out)
}

// --------------------------------------------------------------- search

/// Whether a JSON value is a well-formed shards summary.
pub open spec fn spec_shards_ok(s: Json) -> bool {
    &&& spec_num_field(s, "failed"@) is Some
    &&& spec_num_field(s, "successful"@) is Some
    &&& spec_num_field(s, "total"@) is Some
}

/// Whether a JSON value is a well-formed search response: the timing and
/// shard numbers, the timeout flag, and a list of hits; anything else in it
/// is passed over.
pub open spec fn spec_search_ok(j: Json) -> bool {
    &&& spec_num_field(j, "took"@) is Some
    &&& spec_bool_field(j, "timed_out"@) is Some
    &&& (spec_field(j, "_shards"@) matches Some(s) && spec_shards_ok(s))
    &&& (spec_field(j, "hits"@) matches Some(h) && (spec_field(h, "hits"@) matches Some(
        Json::Arr(_),
    )))
}

/// The first field, in decoding order, on which a search response fails.
pub open spec fn spec_search_err_field(j: Json) -> Seq<char> {
    if spec_num_field(j, "took"@) is None {
        "took"@
    } else if spec_bool_field(j, "timed_out"@) is None {
        "timed_out"@
    } else {
        match spec_field(j, "_shards"@) {
            None => "_shards"@,
            Some(s) => {
                if spec_num_field(s, "failed"@) is None {
                    "_shards.failed"@
                } else if spec_num_field(s, "successful"@) is None {
                    "_shards.successful"@
                } else if spec_num_field(s, "total"@) is None {
                    "_shards.total"@
                } else {
                    match spec_field(j, "hits"@) {
                        None => "hits"@,
                        Some(h) => match h {
                            Json::Obj(hf) => match spec_lookup(hf@, "hits"@) {
                                Some(Json::Arr(_)) => Seq::empty(),
                                _ => "hits.hits"@,
                            },
                            _ => "hits"@,
                        },
                    }
                }
            },
        }
    }
}

/// The aggregations of a search response, passed through opaquely: absent
/// or `null` reads as absent.
pub open spec fn spec_aggregations(j: Json) -> Option<Json> {
    match spec_field(j, "aggregations"@) {
        None => None,
        Some(Json::Null) => None,
        Some(v) => Some(v),
    }
}

/// How a decoded search result corresponds to its JSON form. The hit
/// entries are the array's values themselves, unexamined.
pub open spec fn spec_search_matches(r: OperationSearchResult, j: Json) -> bool {
    &&& Some(r.time_took_ms@) == spec_num_field(j, "took"@)
    &&& Some(r.timed_out) == spec_bool_field(j, "timed_out"@)
    &&& match spec_field(j, "_shards"@) {
        Some(s) => Some(r.shards_used.failed@) == spec_num_field(s, "failed"@) && Some(
            r.shards_used.successful@,
        ) == spec_num_field(s, "successful"@) && Some(r.shards_used.total@) == spec_num_field(
            s,
            "total"@,
        ),
        None => false,
    }
    &&& match spec_field(j, "hits"@) {
        Some(h) => match spec_field(h, "hits"@) {
            Some(Json::Arr(v)) => r.hits.hits == v,
            _ => false,
        },
        None => false,
    }
    &&& r.aggregations == spec_aggregations(j)
}

/// Decodes the typed search response. `took`, `timed_out`, `_shards` and
/// `hits.hits` must be present with their expected shapes, and a failure
/// names the offending field; `aggregations` is optional and kept opaque.
pub fn decode_search(body: &str) -> (r: Result<OperationSearchResult, ElasticSearchError>)
    ensures
        match json_of(body@) {
            None => r matches Err(e) && e.message@ == "invalid json"@,
            Some(j) => {
                &&& (r is Ok <==> spec_search_ok(j))
                &&& (r matches Ok(res) ==> spec_search_matches(res, j))
                &&& (r matches Err(e) ==> e.message@ == "invalid search result, field "@
                    + spec_search_err_field(j) && e.spec_causes().len() == 0)
            },
        },
{
    let parsed = match parse_json(body) {
        Ok(j) => j,
        Err(e) => {
            return Err(e);
        },
    };
    let time_took_ms = match get_num_field(&parsed, "took") {
        Some(s) => s.clone(),
        None => {
            return Err(record_err("invalid search result, field ", "took"));
        },
    };
    let timed_out = match get_bool_field(&parsed, "timed_out") {
        Some(b) => b,
        None => {
            return Err(record_err("invalid search result, field ", "timed_out"));
        },
    };
    let shards_used = match &parsed {
        Json::Obj(fields) => match lookup(fields, "_shards") {
            Some(s) => {
                let failed = match get_num_field(s, "failed") {
                    Some(x) => x.clone(),
                    None => {
                        return Err(record_err("invalid search result, field ", "_shards.failed"));
                    },
                };
                let successful = match get_num_field(s, "successful") {
                    Some(x) => x.clone(),
                    None => {
                        return Err(
                            record_err("invalid search result, field ", "_shards.successful"),
                        );
                    },
                };
                let total = match get_num_field(s, "total") {
                    Some(x) => x.clone(),
                    None => {
                        return Err(record_err("invalid search result, field ", "_shards.total"));
                    },
                };
                OperationSearchShardsUsed { failed, successful, total }
            },
            None => {
                return Err(record_err("invalid search result, field ", "_shards"));
            },
        },
        _ => {
            return Err(record_err("invalid search result, field ", "_shards"));
        },
    };
    let ghost j = parsed;
    match parsed {
        Json::Obj(mut fields) => {
            let ghost fields0 = fields@;
            let hits_vec: Vec<Json> = match find_field(&fields, "hits") {
                Some(hi) => {
                    let pair = fields.remove(hi);
                    proof {
                        reveal_strlit("hits");
                        reveal_strlit("aggregations");
                        assert("hits"@.len() == 4);
                        assert("aggregations"@.len() == 12);
                        assert("aggregations"@ != "hits"@);
                        lemma_lookup_after_remove(fields0, hi as int, "aggregations"@);
                    }
                    match pair.1 {
                        Json::Obj(mut hfields) => match find_field(&hfields, "hits") {
                            Some(hhi) => {
                                let hpair = hfields.remove(hhi);
                                match hpair.1 {
                                    Json::Arr(v) => v,
                                    _ => {
                                        return Err(
                                            record_err(
                                                "invalid search result, field ",
                                                "hits.hits",
                                            ),
                                        );
                                    },
                                }
                            },
                            None => {
                                return Err(
                                    record_err("invalid search result, field ", "hits.hits"),
                                );
                            },
                        },
                        _ => {
                            return Err(record_err("invalid search result, field ", "hits"));
                        },
                    }
                },
                None => {
                    return Err(record_err("invalid search result, field ", "hits"));
                },
            };
            let aggregations = match find_field(&fields, "aggregations") {
                Some(ai) => {
                    let apair = fields.remove(ai);
                    match apair.1 {
                        Json::Null => None,
                        v => Some(v),
                    }
                },
                None => None,
            };
            Ok(
                OperationSearchResult {
                    time_took_ms,
                    timed_out,
                    shards_used,
                    hits: OperationSearchHits { hits: hits_vec },
                    aggregations,
                },
            )
        },
        _ => {
            return Err(record_err("invalid search result, field ", "hits"));
        },
    }
}

} // verus!
