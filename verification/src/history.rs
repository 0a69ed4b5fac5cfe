//! History records: decoding the repaired log text into structured
//! records, and selecting the ones eligible for remote deletion.

use vstd::prelude::*;
use vstd::string::*;

use crate::json::{
    as_array, as_str_owned, error_message, get_field, is_null, json_view, parse_json, parsed_json,
    JsonValue,
};
use crate::timestamp::{parse_rfc3339_epoch, rfc3339_epoch_of};

verus! {

/// Optional tag block attached to a logged upload.
pub struct Tags {
    pub window_title: Option<String>,
    pub process_name: String,
}

/// One logged upload event, as read from the history file.
pub struct HistoryRecord {
    pub file_name: String,
    pub file_path: Option<String>,
    /// Seconds since the Unix epoch of the upload moment.
    pub uploaded_at: i64,
    /// The record's `Type` field: image, file, url and the like.
    pub kind: String,
    /// Name of the remote service the file went to.
    pub host: String,
    pub tags: Option<Tags>,
    pub remote_url: Option<String>,
    pub thumbnail_url: Option<String>,
    /// Capability URL: when present and non-empty, invoking it deletes
    /// the remote copy.
    pub deletion_endpoint: Option<String>,
}

/// Mathematical image of `Tags`.
pub ghost struct TagsView {
    pub window_title: Option<Seq<char>>,
    pub process_name: Seq<char>,
}

/// Mathematical image of `HistoryRecord`.
pub ghost struct HistoryRecordView {
    pub file_name: Seq<char>,
    pub file_path: Option<Seq<char>>,
    pub uploaded_at: int,
    pub kind: Seq<char>,
    pub host: Seq<char>,
    pub tags: Option<TagsView>,
    pub remote_url: Option<Seq<char>>,
    pub thumbnail_url: Option<Seq<char>>,
    pub deletion_endpoint: Option<Seq<char>>,
}

/// The view of an optional owned string.
pub open spec fn opt_str_view(o: Option<String>) -> Option<Seq<char>> {
    match o {
        Some(s) => Some(s@),
        None => None,
    }
}

impl View for Tags {
    type V = TagsView;

    open spec fn view(&self) -> TagsView {
        TagsView {
            window_title: opt_str_view(self.window_title),
            process_name: self.process_name@,
        }
    }
}

impl View for HistoryRecord {
    type V = HistoryRecordView;

    open spec fn view(&self) -> HistoryRecordView {
        HistoryRecordView {
            file_name: self.file_name@,
            file_path: opt_str_view(self.file_path),
            uploaded_at: self.uploaded_at as int,
            kind: self.kind@,
            host: self.host@,
            tags: match self.tags {
                Some(t) => Some(t@),
                None => None,
            },
            remote_url: opt_str_view(self.remote_url),
            thumbnail_url: opt_str_view(self.thumbnail_url),
            deletion_endpoint: opt_str_view(self.deletion_endpoint),
        }
    }
}

/// The views of a sequence of records.
pub open spec fn views_of(rs: Seq<HistoryRecord>) -> Seq<HistoryRecordView> {
    rs.map_values(|r: HistoryRecord| r@)
}

/// The views of a sequence of owned strings.
pub open spec fn str_views(ss: Seq<String>) -> Seq<Seq<char>> {
    ss.map_values(|s: String| s@)
}

/// Why a run over the history failed.
#[derive(Debug)]
pub enum HistoryError {
    /// The history file path does not exist.
    PathNotFound,
    /// The file exists but could not be read.
    Io { message: String },
    /// The repaired log text is not a well-formed array of records.
    Parse { message: String },
}

impl HistoryError {
    /// A human-readable account of the error.
    pub fn describe(&self) -> (r: String)
        ensures
            match self {
                HistoryError::PathNotFound => r@ == "history file path does not exist"@,
                HistoryError::Io { message } => r@ == message@,
                HistoryError::Parse { message } => r@ == message@,
            },
    {
        match self {
            HistoryError::PathNotFound => String::from_str("history file path does not exist"),
            HistoryError::Io { message } => message.clone(),
            HistoryError::Parse { message } => message.clone(),
        }
    }
}

fn parse_error(msg: &str) -> (e: HistoryError)
    ensures
        e is Parse,
{
    HistoryError::Parse { message: String::from_str(msg) }
}

/// A required string field of a JSON object: present and a string.
pub open spec fn str_field(m: Map<Seq<char>, JsonValue>, key: Seq<char>) -> Option<Seq<char>> {
    if m.contains_key(key) {
        match m[key] {
            JsonValue::Str(s) => Some(s),
            _ => None,
        }
    } else {
        None
    }
}

/// An optional string field: absent or null count as `None`; a present
/// value of any shape but string is a format violation.
pub open spec fn opt_str_field(
    m: Map<Seq<char>, JsonValue>,
    key: Seq<char>,
) -> Option<Option<Seq<char>>> {
    if m.contains_key(key) {
        match m[key] {
            JsonValue::Null => Some(None),
            JsonValue::Str(s) => Some(Some(s)),
            _ => None,
        }
    } else {
        Some(None)
    }
}

/// The tag block a JSON value denotes, or `None` where it is malformed.
pub open spec fn tags_of_json(j: JsonValue) -> Option<TagsView> {
    match j {
        JsonValue::Object(m) => match (opt_str_field(m, "WindowTitle"@), str_field(
            m,
            "ProcessName"@,
        )) {
            (Some(wt), Some(pn)) => Some(TagsView { window_title: wt, process_name: pn }),
            _ => None,
        },
        _ => None,
    }
}

/// The `Tags` field of a record object: absent or null count as no
/// tags; anything else must be a well-formed tag block.
pub open spec fn tags_field(m: Map<Seq<char>, JsonValue>) -> Option<Option<TagsView>> {
    if m.contains_key("Tags"@) {
        if m["Tags"@] is Null {
            Some(None)
        } else {
            match tags_of_json(m["Tags"@]) {
                Some(t) => Some(Some(t)),
                None => None,
            }
        }
    } else {
        Some(None)
    }
}

/// The history record a JSON value denotes: an object with the required
/// string fields, a timestamp that parses, and well-formed optional
/// fields.  `None` where any of that fails.
pub open spec fn record_of_json(j: JsonValue) -> Option<HistoryRecordView> {
    match j {
        JsonValue::Object(m) => {
            let file_name = str_field(m, "FileName"@);
            let date_time = str_field(m, "DateTime"@);
            let kind = str_field(m, "Type"@);
            let host = str_field(m, "Host"@);
            let file_path = opt_str_field(m, "FilePath"@);
            let remote_url = opt_str_field(m, "URL"@);
            let thumbnail_url = opt_str_field(m, "ThumbnailURL"@);
            let deletion_endpoint = opt_str_field(m, "DeletionURL"@);
            let tags = tags_field(m);
            if file_name is Some && date_time is Some && kind is Some && host is Some
                && file_path is Some && remote_url is Some && thumbnail_url is Some
                && deletion_endpoint is Some && tags is Some
                && rfc3339_epoch_of(date_time->Some_0) is Some {
                Some(
                    HistoryRecordView {
                        file_name: file_name->Some_0,
                        file_path: file_path->Some_0,
                        uploaded_at: rfc3339_epoch_of(date_time->Some_0)->Some_0,
                        kind: kind->Some_0,
                        host: host->Some_0,
                        tags: tags->Some_0,
                        remote_url: remote_url->Some_0,
                        thumbnail_url: thumbnail_url->Some_0,
                        deletion_endpoint: deletion_endpoint->Some_0,
                    },
                )
            } else {
                None
            }
        },
        _ => None,
    }
}

/// Every element of the array decodes to a record.
pub open spec fn all_records_ok(elems: Seq<JsonValue>) -> bool {
    forall|i: int| 0 <= i < elems.len() ==> record_of_json(elems[i]) is Some
}

/// The records an array of well-formed elements decodes to, in order.
pub open spec fn decoded_records(elems: Seq<JsonValue>) -> Seq<HistoryRecordView> {
    elems.map_values(|e: JsonValue| record_of_json(e)->Some_0)
}

/// Decoding keeps the count: one record per array element.
pub proof fn lemma_decoded_count(elems: Seq<JsonValue>)
    ensures
        decoded_records(elems).len() == elems.len(),
{
}

fn require_str(v: &serde_json::Value, key: &str) -> (r: Result<String, HistoryError>)
    ensures
        r matches Err(e) ==> e is Parse,
        match json_view(*v) {
            JsonValue::Object(m) => match str_field(m, key@) {
                Some(s) => r matches Ok(t) && t@ == s,
                None => r is Err,
            },
            _ => r is Err,
        },
{
    match get_field(v, key) {
        Some(f) => match as_str_owned(&f) {
            Some(s) => Ok(s),
            None => Err(parse_error("a required record field is not a string")),
        },
        None => Err(parse_error("a required record field is missing")),
    }
}

fn optional_str(v: &serde_json::Value, key: &str) -> (r: Result<Option<String>, HistoryError>)
    ensures
        r matches Err(e) ==> e is Parse,
        match json_view(*v) {
            JsonValue::Object(m) => match opt_str_field(m, key@) {
                Some(os) => r matches Ok(o) && opt_str_view(o) == os,
                None => r is Err,
            },
            _ => r matches Ok(o) && o is None,
        },
{
    match get_field(v, key) {
        None => Ok(None),
        Some(f) => {
            if is_null(&f) {
                Ok(None)
            } else {
                match as_str_owned(&f) {
                    Some(s) => Ok(Some(s)),
                    None => Err(parse_error("an optional record field is neither a string nor null")),
                }
            }
        },
    }
}

fn decode_tags(v: &serde_json::Value) -> (r: Result<Tags, HistoryError>)
    ensures
        r matches Err(e) ==> e is Parse,
        match tags_of_json(json_view(*v)) {
            Some(tv) => r matches Ok(t) && t@ == tv,
            None => r is Err,
        },
{
    let window_title = match optional_str(v, "WindowTitle") {
        Ok(o) => o,
        Err(e) => return Err(e),
    };
    let process_name = match require_str(v, "ProcessName") {
        Ok(s) => s,
        Err(e) => return Err(e),
    };
    Ok(Tags { window_title, process_name })
}

/// Decodes one record object.  Returns exactly the record the JSON
/// value denotes, and a parse error exactly where it denotes none.
pub fn decode_record(v: &serde_json::Value) -> (r: Result<HistoryRecord, HistoryError>)
    ensures
        r matches Err(e) ==> e is Parse,
        match record_of_json(json_view(*v)) {
            Some(rv) => r matches Ok(rec) && rec@ == rv,
            None => r is Err,
        },
{
    let file_name = match require_str(v, "FileName") {
        Ok(s) => s,
        Err(e) => return Err(e),
    };
    let date_time = match require_str(v, "DateTime") {
        Ok(s) => s,
        Err(e) => return Err(e),
    };
    let kind = match require_str(v, "Type") {
        Ok(s) => s,
        Err(e) => return Err(e),
    };
    let host = match require_str(v, "Host") {
        Ok(s) => s,
        Err(e) => return Err(e),
    };
    let file_path = match optional_str(v, "FilePath") {
        Ok(o) => o,
        Err(e) => return Err(e),
    };
    let remote_url = match optional_str(v, "URL") {
        Ok(o) => o,
        Err(e) => return Err(e),
    };
    let thumbnail_url = match optional_str(v, "ThumbnailURL") {
        Ok(o) => o,
        Err(e) => return Err(e),
    };
    let deletion_endpoint = match optional_str(v, "DeletionURL") {
        Ok(o) => o,
        Err(e) => return Err(e),
    };
    let tags = match get_field(v, "Tags") {
        None => None,
        Some(f) => {
            if is_null(&f) {
                None
            } else {
                match decode_tags(&f) {
                    Ok(t) => Some(t),
                    Err(e) => return Err(e),
                }
            }
        },
    };
    let uploaded_at = match parse_rfc3339_epoch(date_time.as_str()) {
        Some(t) => t,
        None => return Err(parse_error("a record timestamp is not a valid RFC 3339 date")),
    };
    Ok(
        HistoryRecord {
            file_name,
            file_path,
            uploaded_at,
            kind,
            host,
            tags,
            remote_url,
            thumbnail_url,
            deletion_endpoint,
        },
    )
}

/// The repaired log text: the raw concatenation of objects wrapped in
/// one enclosing pair of brackets.  Purely textual; missing commas
/// between objects are not patched and surface later as a parse error.
pub open spec fn repaired(contents: Seq<char>) -> Seq<char> {
    "["@ + contents + "]"@
}

/// Wraps the raw log text in brackets so that it can be read as one
/// JSON array.
pub fn repair_history_json(contents: &str) -> (r: String)
    ensures
        r@ == repaired(contents@),
{
    let mut s = String::from_str("[");
    s.append(contents);
    s.append("]");
    s
}

/// Decodes repaired log text into history records.  Fails fast: any
/// malformed record makes the whole decode fail, so that a deletion is
/// never planned from a silently truncated record set.
pub fn parse_history_json(json: &str) -> (r: Result<Vec<HistoryRecord>, HistoryError>)
    ensures
        r matches Err(e) ==> e is Parse,
        match parsed_json(json@) {
            Some(JsonValue::Array(elems)) => {
                &&& all_records_ok(elems) ==> (r matches Ok(recs) && views_of(recs@)
                    == decoded_records(elems))
                &&& !all_records_ok(elems) ==> r is Err
            },
            Some(_) => r is Err,
            None => r is Err,
        },
{
    let parsed = match parse_json(json) {
        Ok(v) => v,
        Err(e) => {
            let msg = error_message(&e);
            return Err(HistoryError::Parse { message: msg });
        },
    };
    let arr = match as_array(&parsed) {
        Some(a) => a,
        None => return Err(parse_error("history log is not a sequence of objects")),
    };
    let ghost elems = json_view(parsed)->Array_0;
    let mut records: Vec<HistoryRecord> = Vec::new();
    let mut i: usize = 0;
    while i < arr.len()
        invariant
            i <= arr.len(),
            json_view(parsed) == JsonValue::Array(elems),
            parsed_json(json@) == Some(JsonValue::Array(elems)),
            arr@.len() == elems.len(),
            forall|k: int| 0 <= k < elems.len() ==> json_view(arr@[k]) == elems[k],
            records@.len() == i,
            forall|k: int| 0 <= k < i ==> record_of_json(elems[k]) is Some,
            forall|k: int| 0 <= k < i ==> records@[k]@ == record_of_json(elems[k])->Some_0,
        decreases arr@.len() - i,
    {
        let rec = match decode_record(&arr[i]) {
            Ok(rec) => rec,
            Err(e) => {
                proof {
                    assert(record_of_json(elems[i as int]) is None);
                }
                return Err(e);
            },
        };
        records.push(rec);
        i = i + 1;
    }
    proof {
        assert(views_of(records@) =~= decoded_records(elems));
    }
    Ok(records)
}

/// The record carries a deletion capability: an endpoint that is
/// present and non-empty.
pub open spec fn has_deletion_capability(r: HistoryRecordView) -> bool {
    r.deletion_endpoint is Some && r.deletion_endpoint->Some_0.len() > 0
}

/// A record may be purged exactly when it carries a deletion
/// capability, was uploaded to the given host, and strictly after the
/// cutoff.
pub open spec fn eligible(r: HistoryRecordView, host: Seq<char>, cutoff: int) -> bool {
    has_deletion_capability(r) && r.host == host && r.uploaded_at > cutoff
}

/// The eligible records, in input order.
pub open spec fn eligible_records(
    rs: Seq<HistoryRecordView>,
    host: Seq<char>,
    cutoff: int,
) -> Seq<HistoryRecordView>
    decreases rs.len(),
{
    if rs.len() == 0 {
        Seq::empty()
    } else {
        let init = eligible_records(rs.drop_last(), host, cutoff);
        if eligible(rs.last(), host, cutoff) {
            init.push(rs.last())
        } else {
            init
        }
    }
}

/// The deletion endpoints of the eligible records, in input order.
pub open spec fn select_spec(
    rs: Seq<HistoryRecordView>,
    host: Seq<char>,
    cutoff: int,
) -> Seq<Seq<char>>
    decreases rs.len(),
{
    if rs.len() == 0 {
        Seq::empty()
    } else {
        let init = select_spec(rs.drop_last(), host, cutoff);
        if eligible(rs.last(), host, cutoff) {
            init.push(rs.last().deletion_endpoint->Some_0)
        } else {
            init
        }
    }
}

/// Selects the deletion endpoints of the records eligible for the
/// given host and cutoff, keeping the input order.
pub fn select(records: &Vec<HistoryRecord>, host: &String, cutoff: i64) -> (r: Vec<String>)
    ensures
        str_views(r@) == select_spec(views_of(records@), host@, cutoff as int),
{
    let ghost rv = views_of(records@);
    let mut out: Vec<String> = Vec::new();
    let mut i: usize = 0;
    while i < records.len()
        invariant
            i <= records@.len(),
            rv == views_of(records@),
            rv.len() == records@.len(),
            forall|k: int| 0 <= k < records@.len() ==> rv[k] == records@[k]@,
            str_views(out@) =~= select_spec(rv.take(i as int), host@, cutoff as int),
        decreases records@.len() - i,
    {
        let rec = &records[i];
        let keep = match &rec.deletion_endpoint {
            Some(e) => e.as_str().unicode_len() > 0 && rec.host == *host && rec.uploaded_at
                > cutoff,
            None => false,
        };
        proof {
            assert(rv.take(i as int + 1).drop_last() =~= rv.take(i as int));
            assert(rv.take(i as int + 1).last() == rv[i as int]);
            assert(keep == eligible(rv[i as int], host@, cutoff as int));
        }
        if keep {
            let endpoint = match &rec.deletion_endpoint {
                Some(e) => e.clone(),
                None => String::new(),
            };
            out.push(endpoint);
        }
        i = i + 1;
    }
    proof {
        assert(rv.take(records@.len() as int) =~= rv);
    }
    out
}

/// The endpoints of every record that carries a deletion capability,
/// regardless of host or age, in input order.
pub open spec fn deletion_urls_spec(rs: Seq<HistoryRecordView>) -> Seq<Seq<char>>
    decreases rs.len(),
{
    if rs.len() == 0 {
        Seq::empty()
    } else {
        let init = deletion_urls_spec(rs.drop_last());
        if has_deletion_capability(rs.last()) {
            init.push(rs.last().deletion_endpoint->Some_0)
        } else {
            init
        }
    }
}

/// The deletion endpoint of an eligible record.
pub open spec fn endpoint_of(r: HistoryRecordView) -> Seq<char> {
    r.deletion_endpoint->Some_0
}

/// Law: selection admits only eligible records — every record kept by
/// the selection predicate satisfies it.
pub proof fn lemma_eligible_records_only(rs: Seq<HistoryRecordView>, host: Seq<char>, cutoff: int)
    ensures
        forall|i: int|
            0 <= i < eligible_records(rs, host, cutoff).len() ==> eligible(
                #[trigger] eligible_records(rs, host, cutoff)[i],
                host,
                cutoff,
            ),
    decreases rs.len(),
{
    let out = eligible_records(rs, host, cutoff);
    if rs.len() > 0 {
        lemma_eligible_records_only(rs.drop_last(), host, cutoff);
        let sub = eligible_records(rs.drop_last(), host, cutoff);
        assert forall|i: int| 0 <= i < out.len() implies eligible(out[i], host, cutoff) by {
            if i < sub.len() {
                assert(out[i] == sub[i]);
            }
        }
    }
}

/// Law: selection omits no eligible record — each one appears in the
/// selected sequence.
pub proof fn lemma_eligible_records_complete(
    rs: Seq<HistoryRecordView>,
    host: Seq<char>,
    cutoff: int,
)
    ensures
        forall|i: int|
            0 <= i < rs.len() && eligible(#[trigger] rs[i], host, cutoff) ==> eligible_records(
                rs,
                host,
                cutoff,
            ).contains(rs[i]),
    decreases rs.len(),
{
    let out = eligible_records(rs, host, cutoff);
    if rs.len() > 0 {
        lemma_eligible_records_complete(rs.drop_last(), host, cutoff);
        let sub = eligible_records(rs.drop_last(), host, cutoff);
        assert forall|i: int|
            0 <= i < rs.len() && eligible(rs[i], host, cutoff) implies out.contains(rs[i]) by {
            if i == rs.len() - 1 {
                assert(out[out.len() - 1] == rs[i]);
            } else {
                assert(rs.drop_last()[i] == rs[i]);
                assert(sub.contains(rs[i]));
                let j = choose|j: int| 0 <= j < sub.len() && sub[j] == rs[i];
                assert(out[j] == rs[i]);
            }
        }
    }
}

/// Law: the selected endpoints are exactly the endpoints of the
/// eligible records, one each, in the same order.
pub proof fn lemma_select_is_eligible_endpoints(
    rs: Seq<HistoryRecordView>,
    host: Seq<char>,
    cutoff: int,
)
    ensures
        select_spec(rs, host, cutoff) == eligible_records(rs, host, cutoff).map_values(
            |r: HistoryRecordView| endpoint_of(r),
        ),
    decreases rs.len(),
{
    if rs.len() > 0 {
        lemma_select_is_eligible_endpoints(rs.drop_last(), host, cutoff);
        let sub = eligible_records(rs.drop_last(), host, cutoff);
        if eligible(rs.last(), host, cutoff) {
            assert(sub.push(rs.last()).map_values(|r: HistoryRecordView| endpoint_of(r))
                =~= sub.map_values(|r: HistoryRecordView| endpoint_of(r)).push(
                endpoint_of(rs.last()),
            ));
        }
    }
}

/// Law: a sequence whose records are all eligible is left unchanged by
/// the selection predicate.
pub proof fn lemma_eligible_records_fixed(rs: Seq<HistoryRecordView>, host: Seq<char>, cutoff: int)
    requires
        forall|i: int| 0 <= i < rs.len() ==> eligible(#[trigger] rs[i], host, cutoff),
    ensures
        eligible_records(rs, host, cutoff) == rs,
    decreases rs.len(),
{
    if rs.len() > 0 {
        assert(forall|i: int|
            0 <= i < rs.drop_last().len() ==> eligible(#[trigger] rs.drop_last()[i], host, cutoff));
        lemma_eligible_records_fixed(rs.drop_last(), host, cutoff);
        assert(eligible(rs.last(), host, cutoff));
        assert(eligible_records(rs, host, cutoff) =~= rs);
    }
}

/// Law: selection is idempotent — filtering an already-filtered record
/// sequence through the same predicate yields the same sequence.
pub proof fn lemma_select_idempotent(rs: Seq<HistoryRecordView>, host: Seq<char>, cutoff: int)
    ensures
        eligible_records(eligible_records(rs, host, cutoff), host, cutoff) == eligible_records(
            rs,
            host,
            cutoff,
        ),
{
    lemma_eligible_records_only(rs, host, cutoff);
    lemma_eligible_records_fixed(eligible_records(rs, host, cutoff), host, cutoff);
}

/// The endpoint-only filter: keeps the non-empty endpoints of an
/// endpoint list, in order.
pub open spec fn nonempty_only(es: Seq<Seq<char>>) -> Seq<Seq<char>>
    decreases es.len(),
{
    if es.len() == 0 {
        Seq::empty()
    } else {
        let init = nonempty_only(es.drop_last());
        if es.last().len() > 0 {
            init.push(es.last())
        } else {
            init
        }
    }
}

/// Law: every selected endpoint is non-empty.
pub proof fn lemma_selected_endpoints_nonempty(
    rs: Seq<HistoryRecordView>,
    host: Seq<char>,
    cutoff: int,
)
    ensures
        forall|i: int|
            0 <= i < select_spec(rs, host, cutoff).len() ==> (#[trigger] select_spec(
                rs,
                host,
                cutoff,
            )[i]).len() > 0,
    decreases rs.len(),
{
    let out = select_spec(rs, host, cutoff);
    if rs.len() > 0 {
        lemma_selected_endpoints_nonempty(rs.drop_last(), host, cutoff);
        let sub = select_spec(rs.drop_last(), host, cutoff);
        assert forall|i: int| 0 <= i < out.len() implies out[i].len() > 0 by {
            if i < sub.len() {
                assert(out[i] == sub[i]);
            }
        }
    }
}

/// Law: a list of non-empty endpoints passes the endpoint-only filter
/// unchanged.
pub proof fn lemma_nonempty_only_fixed(es: Seq<Seq<char>>)
    requires
        forall|i: int| 0 <= i < es.len() ==> (#[trigger] es[i]).len() > 0,
    ensures
        nonempty_only(es) == es,
    decreases es.len(),
{
    if es.len() > 0 {
        assert(forall|i: int| 0 <= i < es.drop_last().len() ==> (#[trigger] es.drop_last()[i]).len() > 0);
        lemma_nonempty_only_fixed(es.drop_last());
        assert(nonempty_only(es) =~= es);
    }
}

/// Law: selection is idempotent at the endpoint level — running the
/// already-selected, endpoint-only list through the capability
/// predicate a second time yields the same list.
pub proof fn lemma_select_endpoints_idempotent(
    rs: Seq<HistoryRecordView>,
    host: Seq<char>,
    cutoff: int,
)
    ensures
        nonempty_only(select_spec(rs, host, cutoff)) == select_spec(rs, host, cutoff),
{
    lemma_selected_endpoints_nonempty(rs, host, cutoff);
    lemma_nonempty_only_fixed(select_spec(rs, host, cutoff));
}

/// Collects the deletion endpoints of all records that carry one.
pub fn get_deletion_urls(items: &Vec<HistoryRecord>) -> (r: Vec<String>)
    ensures
        str_views(r@) == deletion_urls_spec(views_of(items@)),
{
    let ghost rv = views_of(items@);
    let mut out: Vec<String> = Vec::new();
    let mut i: usize = 0;
    while i < items.len()
        invariant
            i <= items@.len(),
            rv == views_of(items@),
            rv.len() == items@.len(),
            forall|k: int| 0 <= k < items@.len() ==> rv[k] == items@[k]@,
            str_views(out@) =~= deletion_urls_spec(rv.take(i as int)),
        decreases items@.len() - i,
    {
        let rec = &items[i];
        proof {
            assert(rv.take(i as int + 1).drop_last() =~= rv.take(i as int));
            assert(rv.take(i as int + 1).last() == rv[i as int]);
        }
        match &rec.deletion_endpoint {
            Some(e) => {
                if e.as_str().unicode_len() > 0 {
                    out.push(e.clone());
                }
            },
            None => {},
        }
        i = i + 1;
    }
    proof {
        assert(rv.take(items@.len() as int) =~= rv);
    }
    out
}

/// The whole reading pipeline after the file is in memory: repair the
/// raw log text, decode it, and select the endpoints eligible for the
/// given host and cutoff.
pub fn get_history_urls(contents: &str, host: &String, cutoff: i64) -> (r: Result<
    Vec<String>,
    HistoryError,
>)
    ensures
        r matches Err(e) ==> e is Parse,
        match parsed_json(repaired(contents@)) {
            Some(JsonValue::Array(elems)) => {
                &&& all_records_ok(elems) ==> (r matches Ok(urls) && str_views(urls@)
                    == select_spec(decoded_records(elems), host@, cutoff as int))
                &&& !all_records_ok(elems) ==> r is Err
            },
            Some(_) => r is Err,
            None => r is Err,
        },
{
    let wrapped = repair_history_json(contents);
    let records = match parse_history_json(wrapped.as_str()) {
        Ok(rs) => rs,
        Err(e) => return Err(e),
    };
    Ok(select(&records, host, cutoff))
}

} // verus!
