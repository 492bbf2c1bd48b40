use vstd::prelude::*;
use crate::error::Error;
use crate::json::JsonValue;
use crate::json::object_get;
use crate::strings::str_eq;

verus! {

/// An uploaded file's metadata: a path and name, with optional content
/// type and filename extension.  A plain record; the path is text, not
/// an open handle.
#[derive(Debug)]
pub struct File {
    pub filepath: String,
    pub content_type: Option<String>,
    pub filename: String,
    pub filename_ext: Option<String>,
}

/// Whether a key is one of the four that a file object may carry.
pub open spec fn spec_file_key(k: Seq<char>) -> bool {
    k == "filepath"@ || k == "contentType"@ || k == "filename"@ || k == "filenameExt"@
}

/// Whether every key of an object belongs to the file schema.
pub open spec fn spec_all_file_keys(entries: Seq<(String, JsonValue)>) -> bool {
    forall|i: int| 0 <= i < entries.len() ==> spec_file_key((#[trigger] entries[i]).0@)
}

/// The key of the first entry, from an index on, outside the file
/// schema; meaningful when one exists.
pub open spec fn spec_first_unexpected_key(
    entries: Seq<(String, JsonValue)>,
    k: int,
) -> Seq<char>
    decreases entries.len() - k,
{
    if k < 0 || k >= entries.len() {
        Seq::empty()
    } else if !spec_file_key(entries[k].0@) {
        entries[k].0@
    } else {
        spec_first_unexpected_key(entries, k + 1)
    }
}

/// Whether a JSON value is a well-formed file object: an object whose
/// keys all belong to the file schema, whose `filepath` and `filename`
/// are present strings, and whose `contentType` and `filenameExt`, when
/// present, are strings.
pub open spec fn spec_file_object_ok(j: JsonValue) -> bool {
    &&& j matches JsonValue::Object(entries)
    &&& spec_all_file_keys(entries@)
    &&& JsonValue::spec_object_get(entries@, "filepath"@) matches Some(v) && v is String
    &&& JsonValue::spec_object_get(entries@, "filename"@) matches Some(v) && v is String
    &&& match JsonValue::spec_object_get(entries@, "contentType"@) {
        Some(v) => v is String,
        None => true,
    }
    &&& match JsonValue::spec_object_get(entries@, "filenameExt"@) {
        Some(v) => v is String,
        None => true,
    }
}

/// The string under a key of a file object, for contracts.
pub open spec fn spec_file_field(j: JsonValue, key: Seq<char>) -> Option<Seq<char>> {
    match j {
        JsonValue::Object(entries) => match JsonValue::spec_object_get(entries@, key) {
            Some(JsonValue::String(s)) => Some(s@),
            _ => None,
        },
        _ => None,
    }
}

/// The message of a failed file construction, by the first failing
/// cause in the order the construction checks them: not an object, a
/// key outside the schema (named in the message), then `filepath`,
/// `contentType`, `filename` and `filenameExt` in turn.  Meaningful
/// when the object is not well formed.
pub open spec fn spec_file_err_msg(j: JsonValue) -> Seq<char> {
    match j {
        JsonValue::Object(entries) => if !spec_all_file_keys(entries@) {
            "Connot convert json value to file, unexpected key `"@ + spec_first_unexpected_key(
                entries@,
                0,
            ) + "`"@
        } else {
            match JsonValue::spec_object_get(entries@, "filepath"@) {
                None => "Cannot convert json value to file, missing key `filepath`"@,
                Some(JsonValue::String(_)) => spec_file_err_after_filepath(entries@),
                Some(_) => "Cannot convert json value to file, invalid value at `filepath`, expect string"@,
            }
        },
        _ => "Cannot convert json value to file, value is not object"@,
    }
}

/// The failing cause of a file object whose keys and `filepath` are in
/// order: `contentType`, then `filename`, then `filenameExt`.
pub open spec fn spec_file_err_after_filepath(entries: Seq<(String, JsonValue)>) -> Seq<char> {
    match JsonValue::spec_object_get(entries, "contentType"@) {
        Some(JsonValue::String(_)) | None => match JsonValue::spec_object_get(
            entries,
            "filename"@,
        ) {
            None => "Cannot convert json value to file, missing key `filename`"@,
            Some(JsonValue::String(_)) => match JsonValue::spec_object_get(
                entries,
                "filenameExt"@,
            ) {
                Some(JsonValue::String(_)) | None => Seq::empty(),
                Some(_) => "Cannot convert json value to file, invalid value at `filenameExt`, expect string"@,
            },
            Some(_) => "Cannot convert json value to file, invalid value at `filename`, expect string"@,
        },
        Some(_) => "Cannot convert json value to file, invalid value at `contentType`, expect string"@,
    }
}

impl File {
    /// Builds a file record from a JSON object restricted to exactly the
    /// keys `filepath`, `contentType`, `filename` and `filenameExt`;
    /// `filepath` and `filename` are mandatory.  Any other key, a missing
    /// mandatory key, a non-string value or a non-object all are
    /// construction errors, each with the message [`spec_file_err_msg`]
    /// names for its cause; the unexpected-key message carries the key.
    pub fn from_json_value(json_value: &JsonValue) -> (r: Result<File, Error>)
        ensures
            r is Ok <==> spec_file_object_ok(*json_value),
            r matches Ok(f) ==> {
                &&& Some(f.filepath@) == spec_file_field(*json_value, "filepath"@)
                &&& Some(f.filename@) == spec_file_field(*json_value, "filename"@)
                &&& match f.content_type {
                    Some(c) => Some(c@) == spec_file_field(*json_value, "contentType"@),
                    None => spec_file_field(*json_value, "contentType"@) is None,
                }
                &&& match f.filename_ext {
                    Some(c) => Some(c@) == spec_file_field(*json_value, "filenameExt"@),
                    None => spec_file_field(*json_value, "filenameExt"@) is None,
                }
            },
            r matches Err(e) ==> e.message@ == spec_file_err_msg(*json_value),
    {
        let entries = match json_value {
            JsonValue::Object(entries) => entries,
            _ => {
                return Err(
                    Error::new(
                        String::from_str(
                            "Cannot convert json value to file, value is not object",
                        ),
                    ),
                );
            },
        };
        let n = entries.len();
        let mut i: usize = 0;
        while i < n
            invariant
                i <= n,
                n == entries@.len(),
                *json_value == JsonValue::Object(*entries),
                spec_first_unexpected_key(entries@, 0) == spec_first_unexpected_key(
                    entries@,
                    i as int,
                ),
                forall|j: int| 0 <= j < i ==> spec_file_key(#[trigger] entries@[j].0@),
            decreases n - i,
        {
            let k = entries[i].0.as_str();
            if !(str_eq(k, "filepath") || str_eq(k, "contentType") || str_eq(k, "filename")
                || str_eq(k, "filenameExt")) {
                proof {
                    assert(!spec_file_key(entries@[i as int].0@));
                    assert(!spec_all_file_keys(entries@)) by {
                        if spec_all_file_keys(entries@) {
                            assert(spec_file_key(entries@[i as int].0@));
                        }
                    }
                }
                let mut msg = String::new();
                msg.append("Connot convert json value to file, unexpected key `");
                msg.append(k);
                msg.append("`");
                proof {
                    assert(msg@ =~= "Connot convert json value to file, unexpected key `"@
                        + spec_first_unexpected_key(entries@, 0) + "`"@);
                }
                return Err(Error::new(msg));
            }
            i += 1;
        }
        proof {
            assert(spec_all_file_keys(entries@));
        }
        let filepath = match object_get(entries, "filepath") {
            Some(JsonValue::String(s)) => s.clone(),
            Some(_) => {
                return Err(
                    Error::new(
                        String::from_str(
                            "Cannot convert json value to file, invalid value at `filepath`, expect string",
                        ),
                    ),
                );
            },
            None => {
                return Err(
                    Error::new(
                        String::from_str(
                            "Cannot convert json value to file, missing key `filepath`",
                        ),
                    ),
                );
            },
        };
        let content_type = match object_get(entries, "contentType") {
            Some(JsonValue::String(s)) => Some(s.clone()),
            Some(_) => {
                return Err(
                    Error::new(
                        String::from_str(
                            "Cannot convert json value to file, invalid value at `contentType`, expect string",
                        ),
                    ),
                );
            },
            None => None,
        };
        let filename = match object_get(entries, "filename") {
            Some(JsonValue::String(s)) => s.clone(),
            Some(_) => {
                return Err(
                    Error::new(
                        String::from_str(
                            "Cannot convert json value to file, invalid value at `filename`, expect string",
                        ),
                    ),
                );
            },
            None => {
                return Err(
                    Error::new(
                        String::from_str(
                            "Cannot convert json value to file, missing key `filename`",
                        ),
                    ),
                );
            },
        };
        let filename_ext = match object_get(entries, "filenameExt") {
            Some(JsonValue::String(s)) => Some(s.clone()),
            Some(_) => {
                return Err(
                    Error::new(
                        String::from_str(
                            "Cannot convert json value to file, invalid value at `filenameExt`, expect string",
                        ),
                    ),
                );
            },
            None => None,
        };
        Ok(File { filepath, content_type, filename, filename_ext })
    }
}

} // verus!
