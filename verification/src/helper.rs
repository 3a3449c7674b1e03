//! Decoding the data of Secrets, and what the operator reads of its own pod.
use vstd::prelude::*;
use vstd::utf8::{decode_utf8, valid_utf8};
use crate::Error;

verus! {

/// The value of one key of a Secret.
#[derive(Debug)]
pub enum Decoded {
    /// Usually the values of Secrets are short UTF-8 texts,
    Utf8(String),
    /// but binary data may be stored too.
    Bytes(Vec<u8>),
}

/// `String::from_utf8`: the text the bytes encode in UTF-8, or, when they are
/// not valid UTF-8, the bytes back with the error's message (of which nothing
/// is stated).
#[verifier::external_body]
pub(crate) fn utf8_text(bytes: Vec<u8>) -> (r: Result<String, (Vec<u8>, String)>)
    ensures
        match r {
            Ok(s) => valid_utf8(bytes@) && s@ == decode_utf8(bytes@),
            Err((b, _)) => !valid_utf8(bytes@) && b@ == bytes@,
        },
{
    String::from_utf8(bytes).map_err(|e| {
        let msg = e.to_string();
        (e.into_bytes(), msg)
    })
}

/// How one value of a Secret is decoded.
pub open spec fn decoded_as(bytes: Seq<u8>, d: Decoded) -> bool {
    if valid_utf8(bytes) {
        d matches Decoded::Utf8(s) && s@ == decode_utf8(bytes)
    } else {
        d matches Decoded::Bytes(b) && b@ == bytes
    }
}

/// The entries of the data of a Secret; absent data has none.
pub open spec fn secret_entries(data: Option<Vec<(String, Vec<u8>)>>) -> Seq<(String, Vec<u8>)> {
    match data {
        Some(d) => d@,
        None => Seq::empty(),
    }
}

/// Decodes the data of a Secret, given as its entries in key order: each value
/// that is valid UTF-8 becomes a text, every other one stays bytes.
pub fn decode_secret(data: Option<Vec<(String, Vec<u8>)>>) -> (r: Vec<(String, Decoded)>)
    ensures
        r@.len() == secret_entries(data).len(),
        forall|i: int|
            0 <= i < r@.len() ==> #[trigger] r@[i].0 == secret_entries(data)[i].0 && decoded_as(
                secret_entries(data)[i].1@,
                r@[i].1,
            ),
{
    let mut res: Vec<(String, Decoded)> = Vec::new();
    let d = match data {
        None => {
            return res;
        },
        Some(d) => d,
    };
    let mut i: usize = 0;
    while i < d.len()
        invariant
            secret_entries(data) == d@,
            i <= d@.len(),
            res@.len() == i,
            forall|j: int|
                0 <= j < i ==> #[trigger] res@[j].0 == d@[j].0 && decoded_as(d@[j].1@, res@[j].1),
        decreases d@.len() - i,
    {
        let k = d[i].0.clone();
        let v = d[i].1.clone();
        assert(v@ == d@[i as int].1@);
        let dec = match utf8_text(v) {
            Ok(s) => Decoded::Utf8(s),
            Err((b, _)) => Decoded::Bytes(b),
        };
        res.push((k, dec));
        i = i + 1;
    }
    res
}

/// Position of the first entry under `key`, or -1.
pub open spec fn entry_index(data: Seq<(String, Decoded)>, key: Seq<char>) -> int {
    if exists|i: int| 0 <= i < data.len() && data[i].0@ == key {
        choose|i: int|
            0 <= i < data.len() && data[i].0@ == key && forall|j: int|
                0 <= j < i ==> data[j].0@ != key
    } else {
        -1
    }
}

/// The decoded value stored under `key` (the first one, should there be several).
pub fn lookup_decoded<'a>(data: &'a Vec<(String, Decoded)>, key: &str) -> (r: Option<&'a Decoded>)
    ensures
        match r {
            Some(d) => entry_index(data@, key@) >= 0 && *d == data@[entry_index(data@, key@)].1,
            None => entry_index(data@, key@) == -1,
        },
{
    let mut i: usize = 0;
    while i < data.len()
        invariant
            i <= data@.len(),
            forall|j: int| 0 <= j < i ==> data@[j].0@ != key@,
        decreases data@.len() - i,
    {
        if crate::text::same_text(data[i].0.as_str(), key) {
            proof {
                let k = entry_index(data@, key@);
                assert(0 <= k < data@.len() && data@[k].0@ == key@);
                if k < i {
                    assert(data@[k].0@ != key@);
                }
                if k > i {
                    assert(data@[i as int].0@ != key@);
                }
            }
            return Some(&data[i].1);
        }
        i = i + 1;
    }
    None
}

/// The image of the first container of a pod spec: the operator's own image
/// when the spec is its own pod's.
pub fn first_container_image(spec: Option<&crate::network_controller::daemonset::PodSpec>) -> (r: Result<
    String,
    Error,
>)
    ensures
        spec is None ==> (r matches Err(Error::OtherError(m)) && m@ == "Pod spec not found"@),
        spec matches Some(s) ==> if s.containers@.len() == 0 {
            r matches Err(Error::OtherError(m)) && m@ == "Container not found"@
        } else {
            match s.containers@[0].image {
                Some(i) => r == Ok::<String, Error>(i),
                None => r matches Err(Error::OtherError(m)) && m@ == "Image not found"@,
            }
        },
{
    let s = match spec {
        Some(s) => s,
        None => {
            return Err(Error::OtherError(crate::text::lit("Pod spec not found")));
        },
    };
    if s.containers.len() == 0 {
        return Err(Error::OtherError(crate::text::lit("Container not found")));
    }
    match &s.containers[0].image {
        Some(i) => Ok(i.clone()),
        None => Err(Error::OtherError(crate::text::lit("Image not found"))),
    }
}

/// A text without the line breaks it ends with (`trim_end_matches('\n')`),
/// as the namespace and pod name files are read.
pub open spec fn without_trailing_newlines(s: Seq<char>) -> Seq<char>
    decreases s.len(),
{
    if s.len() > 0 && s.last() == '\n' {
        without_trailing_newlines(s.drop_last())
    } else {
        s
    }
}

/// Removes the line breaks a text ends with.
pub fn trim_trailing_newlines(s: &str) -> (r: String)
    ensures
        r@ == without_trailing_newlines(s@),
{
    let chars = crate::text::chars_of(s);
    let mut end: usize = chars.len();
    assert(chars@.subrange(0, end as int) =~= chars@);
    while end > 0 && chars[end - 1] == '\n'
        invariant
            end <= chars@.len(),
            without_trailing_newlines(chars@) == without_trailing_newlines(
                chars@.subrange(0, end as int),
            ),
        decreases end,
    {
        proof {
            assert(chars@.subrange(0, end as int).drop_last() =~= chars@.subrange(0, end - 1));
        }
        end = end - 1;
    }
    let t = crate::text::copy_range(&chars, 0, end);
    crate::text::string_from_chars(t.as_slice())
}

} // verus!
