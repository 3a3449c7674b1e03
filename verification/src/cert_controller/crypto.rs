//! The keys and certificates that `ndnd sec` makes: the command lines that ask
//! for them, and the texts it prints about them.
//!
//! A key text carries `Name:` and `SigType:` lines; a certificate text carries
//! `Name:`, `SigType:`, `SignerKey:` and `Validity: <start> - <end>` lines.
use vstd::prelude::*;

use crate::clock::{
    format_compact, instant_compact, ndnd_time_instant, now, parse_ndnd_time, Instant,
};
use crate::helper::utf8_text;
use crate::pattern::{split_pattern, split_pattern_chars};
use crate::split::{lines, lines_of, split_once, split_once_chars, views};
use crate::text::{chars_of, has_prefix, join2, lit, same_chars, string_from_chars, trim, trim_chars};
use crate::Error;
use vstd::utf8::{decode_utf8, valid_utf8};

verus! {

/// The value of a `key: value` line, trimmed, when the line is one for `key`.
pub open spec fn line_field(line: Seq<char>, key: Seq<char>) -> Option<Seq<char>> {
    match split_once(line, ':') {
        Some((k, v)) => if k == key {
            Some(trim(v))
        } else {
            None
        },
        None => None,
    }
}

/// The value of the last line for `key` among `ls`.
pub open spec fn last_field(ls: Seq<Seq<char>>, key: Seq<char>) -> Option<Seq<char>>
    decreases ls.len(),
{
    if ls.len() == 0 {
        None
    } else {
        match line_field(ls.last(), key) {
            Some(v) => Some(v),
            None => last_field(ls.drop_last(), key),
        }
    }
}

/// The value of the field `key` in a text printed by `ndnd sec`: that of its
/// last line for `key`.
pub open spec fn text_field(text: Seq<char>, key: Seq<char>) -> Option<Seq<char>> {
    last_field(lines(text), key)
}

/// What is known of a key made by `ndnd sec keygen`.
#[derive(Debug)]
pub struct KeyInfo {
    /// The full NDN name of the key.
    pub name: String,
    /// The signature type, e.g. "ECDSA".
    pub sig_type: String,
    /// The key as `ndnd` printed it.
    pub key_text: String,
}

/// What is asked of `ndnd sec sign-cert`.
#[derive(Debug)]
pub struct SignCertParams {
    pub start: Option<Instant>,
    pub end: Option<Instant>,
    pub issuer: Option<String>,
    pub info: Option<String>,
}

impl SignCertParams {
    /// No start, end, issuer or info.
    pub fn empty() -> (r: SignCertParams)
        ensures
            r.start is None,
            r.end is None,
            r.issuer is None,
            r.info is None,
    {
        SignCertParams { start: None, end: None, issuer: None, info: None }
    }
}

/// What is known of a certificate signed by `ndnd sec sign-cert`.
#[derive(Debug)]
pub struct CertInfo {
    pub name: String,
    pub sig_type: String,
    pub signer_key: String,
    /// The start and end of the validity period.
    pub validity: (Instant, Instant),
    /// The certificate as `ndnd` printed it.
    pub cert_text: String,
}

/// The value of a line for `key`, if the line is one.
fn line_value(line: &Vec<char>, key: &Vec<char>) -> (r: Option<Vec<char>>)
    ensures
        match r {
            Some(v) => line_field(line@, key@) == Some(v@),
            None => line_field(line@, key@) is None,
        },
{
    match split_once_chars(line, ':') {
        Some((k, v)) => {
            if same_chars(&k, key) {
                Some(trim_chars(&v))
            } else {
                None
            }
        },
        None => None,
    }
}

/// The values of the last lines for each of the given keys.
fn fields_of(text: &str, keys: &Vec<Vec<char>>) -> (r: Vec<Option<Vec<char>>>)
    ensures
        r@.len() == keys@.len(),
        forall|k: int|
            0 <= k < keys@.len() ==> match #[trigger] r@[k] {
                Some(v) => text_field(text@, keys@[k]@) == Some(v@),
                None => text_field(text@, keys@[k]@) is None,
            },
{
    let chars = chars_of(text);
    let ls = lines_of(&chars);
    let ghost all = views(ls@);
    let mut found: Vec<Option<Vec<char>>> = Vec::new();
    let mut k: usize = 0;
    while k < keys.len()
        invariant
            k <= keys@.len(),
            found@.len() == k,
            forall|q: int| 0 <= q < k ==> found@[q] is None,
        decreases keys@.len() - k,
    {
        found.push(None);
        k = k + 1;
    }
    let mut i: usize = 0;
    while i < ls.len()
        invariant
            i <= ls@.len(),
            all == views(ls@),
            all == lines(text@),
            found@.len() == keys@.len(),
            forall|q: int|
                0 <= q < keys@.len() ==> match #[trigger] found@[q] {
                    Some(v) => last_field(all.take(i as int), keys@[q]@) == Some(v@),
                    None => last_field(all.take(i as int), keys@[q]@) is None,
                },
        decreases ls@.len() - i,
    {
        let ghost prev = found@;
        proof {
            assert(all.take(i + 1).drop_last() =~= all.take(i as int));
            assert(all.take(i + 1).last() == ls@[i as int]@);
        }
        let mut q: usize = 0;
        while q < keys.len()
            invariant
                i < ls@.len(),
                q <= keys@.len(),
                all == views(ls@),
                found@.len() == keys@.len(),
                all.take(i + 1).drop_last() == all.take(i as int),
                all.take(i + 1).last() == ls@[i as int]@,
                forall|x: int|
                    0 <= x < q ==> match #[trigger] found@[x] {
                        Some(v) => last_field(all.take(i + 1), keys@[x]@) == Some(v@),
                        None => last_field(all.take(i + 1), keys@[x]@) is None,
                    },
                forall|x: int|
                    q <= x < keys@.len() ==> #[trigger] found@[x] == prev[x],
                forall|x: int|
                    0 <= x < keys@.len() ==> match #[trigger] prev[x] {
                        Some(v) => last_field(all.take(i as int), keys@[x]@) == Some(v@),
                        None => last_field(all.take(i as int), keys@[x]@) is None,
                    },
            decreases keys@.len() - q,
        {
            match line_value(&ls[i], &keys[q]) {
                Some(v) => {
                    found.set(q, Some(v));
                },
                None => {},
            }
            q = q + 1;
        }
        i = i + 1;
    }
    assert(all.take(ls@.len() as int) =~= all);
    found
}

/// The four fields of a key or certificate text, in order: Name, SigType,
/// SignerKey, Validity.
fn ndnd_fields(text: &str) -> (r: (Option<Vec<char>>, Option<Vec<char>>, Option<Vec<char>>, Option<Vec<char>>))
    ensures
        match r.0 {
            Some(v) => text_field(text@, "Name"@) == Some(v@),
            None => text_field(text@, "Name"@) is None,
        },
        match r.1 {
            Some(v) => text_field(text@, "SigType"@) == Some(v@),
            None => text_field(text@, "SigType"@) is None,
        },
        match r.2 {
            Some(v) => text_field(text@, "SignerKey"@) == Some(v@),
            None => text_field(text@, "SignerKey"@) is None,
        },
        match r.3 {
            Some(v) => text_field(text@, "Validity"@) == Some(v@),
            None => text_field(text@, "Validity"@) is None,
        },
{
    let mut keys: Vec<Vec<char>> = Vec::new();
    keys.push(chars_of("Name"));
    keys.push(chars_of("SigType"));
    keys.push(chars_of("SignerKey"));
    keys.push(chars_of("Validity"));
    let mut found = fields_of(text, &keys);
    assert(found@[0] == found@[0]);
    assert(found@[1] == found@[1]);
    assert(found@[2] == found@[2]);
    assert(found@[3] == found@[3]);
    let v = found.pop().unwrap();
    let s = found.pop().unwrap();
    let t = found.pop().unwrap();
    let n = found.pop().unwrap();
    (n, t, s, v)
}

impl KeyInfo {
    /// Reads the name and signature type of a key from the text `ndnd`
    /// printed for it.
    pub fn from_key_text(key_text: String) -> (r: Result<KeyInfo, Error>)
        ensures
            match (text_field(key_text@, "Name"@), text_field(key_text@, "SigType"@)) {
                (Some(n), Some(s)) => r matches Ok(k) && k.name@ == n && k.sig_type@ == s
                    && k.key_text == key_text,
                (None, _) => r matches Err(Error::OtherError(m)) && m@
                    == "Could not parse key name"@,
                (Some(_), None) => r matches Err(Error::OtherError(m)) && m@
                    == "Could not parse sig type"@,
            },
    {
        let (name, sig_type, _, _) = ndnd_fields(key_text.as_str());
        match name {
            None => Err(Error::OtherError(lit("Could not parse key name"))),
            Some(n) => match sig_type {
                None => Err(Error::OtherError(lit("Could not parse sig type"))),
                Some(s) => Ok(
                    KeyInfo {
                        name: string_from_chars(n.as_slice()),
                        sig_type: string_from_chars(s.as_slice()),
                        key_text,
                    },
                ),
            },
        }
    }
}

/// The validity period a certificate text gives, read with `chrono`: `None`
/// when the text has no `Validity` line whose value splits into exactly two
/// parts around " - "; otherwise the two instants read, or which part failed.
pub open spec fn validity_of(text: Seq<char>) -> Option<Result<(Instant, Instant), bool>> {
    match text_field(text, "Validity"@) {
        None => None,
        Some(v) => {
            let parts = split_pattern(v, " - "@);
            if parts.len() != 2 {
                None
            } else {
                match ndnd_time_instant(parts[0]) {
                    None => Some(Err(true)),
                    Some(start) => match ndnd_time_instant(parts[1]) {
                        None => Some(Err(false)),
                        Some(end) => Some(Ok((start, end))),
                    },
                }
            }
        },
    }
}

/// Reads the validity period of a certificate text.
fn read_validity(v: &Vec<char>) -> (r: Option<Result<(Instant, Instant), (bool, String)>>)
    ensures
        ({
            let parts = split_pattern(v@, " - "@);
            match r {
                None => parts.len() != 2,
                Some(Err((first, _))) => parts.len() == 2 && if first {
                    ndnd_time_instant(parts[0]) is None
                } else {
                    ndnd_time_instant(parts[0]) is Some && ndnd_time_instant(parts[1]) is None
                },
                Some(Ok((s, e))) => parts.len() == 2 && ndnd_time_instant(parts[0]) == Some(s)
                    && ndnd_time_instant(parts[1]) == Some(e),
            }
        }),
{
    let sep = chars_of(" - ");
    proof {
        reveal_strlit(" - ");
    }
    let parts = split_pattern_chars(v, &sep);
    if parts.len() != 2 {
        return None;
    }
    assert(views(parts@)[0] == parts@[0]@);
    assert(views(parts@)[1] == parts@[1]@);
    let first = string_from_chars(parts[0].as_slice());
    let start = match parse_ndnd_time(first.as_str()) {
        Ok(t) => t,
        Err(e) => {
            return Some(Err((true, e)));
        },
    };
    let second = string_from_chars(parts[1].as_slice());
    match parse_ndnd_time(second.as_str()) {
        Ok(end) => Some(Ok((start, end))),
        Err(e) => Some(Err((false, e))),
    }
}

impl CertInfo {
    /// Reads a certificate text, with the validity period it gets when the
    /// text gives none that splits into two parts.
    pub fn from_cert_text_at(cert_text: String, default_validity: (Instant, Instant)) -> (r: Result<
        CertInfo,
        Error,
    >)
        ensures
            ({
                let t = cert_text@;
                match validity_of(t) {
                    Some(Err(first)) => r matches Err(Error::OtherError(m)) && has_prefix(
                        m@,
                        if first {
                            "Failed to parse start date: "@
                        } else {
                            "Failed to parse end date: "@
                        },
                    ),
                    _ => match (
                        text_field(t, "Name"@),
                        text_field(t, "SigType"@),
                        text_field(t, "SignerKey"@),
                    ) {
                        (Some(n), Some(s), Some(k)) => r matches Ok(c) && c.name@ == n
                            && c.sig_type@ == s && c.signer_key@ == k && c.cert_text == cert_text
                            && c.validity == match validity_of(t) {
                            Some(Ok(p)) => p,
                            _ => default_validity,
                        },
                        (None, _, _) => r matches Err(Error::OtherError(m)) && m@
                            == "Could not parse cert name"@,
                        (Some(_), None, _) => r matches Err(Error::OtherError(m)) && m@
                            == "Could not parse sig type"@,
                        (Some(_), Some(_), None) => r matches Err(Error::OtherError(m)) && m@
                            == "Could not parse signer key"@,
                    },
                }
            }),
    {
        let (name, sig_type, signer_key, validity_str) = ndnd_fields(cert_text.as_str());
        let mut validity = default_validity;
        match validity_str {
            Some(v) => {
                match read_validity(&v) {
                    None => {},
                    Some(Ok(p)) => {
                        validity = p;
                    },
                    Some(Err((first, e))) => {
                        let msg = if first {
                            join2("Failed to parse start date: ", e.as_str())
                        } else {
                            join2("Failed to parse end date: ", e.as_str())
                        };
                        proof {
                            reveal_strlit("Failed to parse start date: ");
                            reveal_strlit("Failed to parse end date: ");
                            assert(msg@.subrange(0, 28) =~= "Failed to parse start date: "@
                                || msg@.subrange(0, 26) =~= "Failed to parse end date: "@);
                        }
                        return Err(Error::OtherError(msg));
                    },
                }
            },
            None => {},
        }
        let name = match name {
            Some(n) => string_from_chars(n.as_slice()),
            None => {
                return Err(Error::OtherError(lit("Could not parse cert name")));
            },
        };
        let sig_type = match sig_type {
            Some(s) => string_from_chars(s.as_slice()),
            None => {
                return Err(Error::OtherError(lit("Could not parse sig type")));
            },
        };
        let signer_key = match signer_key {
            Some(k) => string_from_chars(k.as_slice()),
            None => {
                return Err(Error::OtherError(lit("Could not parse signer key")));
            },
        };
        Ok(CertInfo { name, sig_type, signer_key, validity, cert_text })
    }

    /// Reads a certificate text; when it gives no validity period that splits
    /// into two parts, the period starts and ends at the current time.
    pub fn from_cert_text(cert_text: String) -> (r: Result<CertInfo, Error>)
        ensures
            ({
                let t = cert_text@;
                match (
                    validity_of(t),
                    text_field(t, "Name"@),
                    text_field(t, "SigType"@),
                    text_field(t, "SignerKey"@),
                ) {
                    (Some(Err(_)), _, _, _) => r is Err,
                    (Some(Ok(p)), Some(n), Some(s), Some(k)) => r matches Ok(c) && c.name@ == n
                        && c.sig_type@ == s && c.signer_key@ == k && c.validity == p
                        && c.cert_text == cert_text,
                    (None, Some(n), Some(s), Some(k)) => r matches Ok(c) && c.name@ == n
                        && c.sig_type@ == s && c.signer_key@ == k && c.cert_text == cert_text,
                    _ => r is Err,
                }
            }),
    {
        let start = now();
        let end = now();
        CertInfo::from_cert_text_at(cert_text, (start, end))
    }
}

/// The arguments of `ndnd` that make a new key for a prefix.
pub fn keygen_args(prefix: &str) -> (r: Vec<String>)
    ensures
        r@.len() == 5,
        r@[0]@ == "sec"@,
        r@[1]@ == "keygen"@,
        r@[2]@ == prefix@,
        r@[3]@ == "ecc"@,
        r@[4]@ == "secp256r1"@,
{
    let mut r: Vec<String> = Vec::new();
    r.push(lit("sec"));
    r.push(lit("keygen"));
    r.push(lit(prefix));
    r.push(lit("ecc"));
    r.push(lit("secp256r1"));
    r
}

/// The arguments of `ndnd sec sign-cert` for the given signer key file and
/// parameters.
pub open spec fn sign_cert_args_spec(
    signer_key_file: Seq<char>,
    start: Option<Seq<char>>,
    end: Option<Seq<char>>,
    issuer: Option<Seq<char>>,
    info: Option<Seq<char>>,
) -> Seq<Seq<char>> {
    seq!["sec"@, "sign-cert"@, signer_key_file] + match start {
        Some(s) => seq!["--start"@, s],
        None => Seq::empty(),
    } + match end {
        Some(e) => seq!["--end"@, e],
        None => Seq::empty(),
    } + match issuer {
        Some(i) => seq!["--issuer"@, i],
        None => Seq::empty(),
    } + match info {
        Some(i) => seq!["--info"@, i],
        None => Seq::empty(),
    }
}

/// The views of a list of strings.
pub open spec fn string_views(v: Seq<String>) -> Seq<Seq<char>> {
    v.map_values(|s: String| s@)
}

/// The arguments of `ndnd sec sign-cert`: the signer key file, then each
/// parameter that is set, the times written as `%Y%m%d%H%M%S`. A time that
/// `chrono` cannot hold is refused.
pub fn sign_cert_args(signer_key_file: &str, params: &SignCertParams) -> (r: Result<Vec<String>, Error>)
    ensures
        match r {
            Ok(v) => {
                &&& params.start matches Some(s) ==> instant_compact(s) is Some
                &&& params.end matches Some(e) ==> instant_compact(e) is Some
                &&& string_views(v@) == sign_cert_args_spec(
                    signer_key_file@,
                    match params.start {
                        Some(s) => instant_compact(s),
                        None => None,
                    },
                    match params.end {
                        Some(e) => instant_compact(e),
                        None => None,
                    },
                    match params.issuer {
                        Some(i) => Some(i@),
                        None => None,
                    },
                    match params.info {
                        Some(i) => Some(i@),
                        None => None,
                    },
                )
            },
            Err(_) => (params.start matches Some(s) && instant_compact(s) is None) || (
            params.end matches Some(e) && instant_compact(e) is None),
        },
        r matches Ok(v) ==> {
            let a = string_views(v@);
            &&& a.len() == 3 + (if params.start is Some {
                2int
            } else {
                0
            }) + (if params.end is Some {
                2int
            } else {
                0
            }) + (if params.issuer is Some {
                2int
            } else {
                0
            }) + (if params.info is Some {
                2int
            } else {
                0
            })
            &&& a[0] == "sec"@ && a[1] == "sign-cert"@ && a[2] == signer_key_file@
            &&& params.start matches Some(t) ==> exists|k: int|
                3 <= k && k + 1 < a.len() && #[trigger] a[k] == "--start"@ && a[k + 1]
                    == instant_compact(t)->0
            &&& params.end matches Some(t) ==> exists|k: int|
                3 <= k && k + 1 < a.len() && #[trigger] a[k] == "--end"@ && a[k + 1]
                    == instant_compact(t)->0
            &&& params.issuer matches Some(t) ==> exists|k: int|
                3 <= k && k + 1 < a.len() && #[trigger] a[k] == "--issuer"@ && a[k + 1] == t@
            &&& params.info matches Some(t) ==> exists|k: int|
                3 <= k && k + 1 < a.len() && #[trigger] a[k] == "--info"@ && a[k + 1] == t@
        },
{
    let mut args: Vec<String> = Vec::new();
    args.push(lit("sec"));
    args.push(lit("sign-cert"));
    args.push(lit(signer_key_file));
    let ghost base = string_views(args@);
    assert(base =~= seq!["sec"@, "sign-cert"@, signer_key_file@]);
    let ghost mut expect: Seq<Seq<char>> = base;
    match params.start {
        Some(s) => match format_compact(s) {
            Some(text) => {
                args.push(lit("--start"));
                args.push(text);
            },
            None => {
                return Err(Error::OtherError(lit("start time is out of range")));
            },
        },
        None => {},
    }
    let ghost after_start = string_views(args@);
    assert(after_start =~= base + match params.start {
        Some(s) => seq!["--start"@, instant_compact(s)->0],
        None => Seq::<Seq<char>>::empty(),
    });
    match params.end {
        Some(e) => match format_compact(e) {
            Some(text) => {
                args.push(lit("--end"));
                args.push(text);
            },
            None => {
                return Err(Error::OtherError(lit("end time is out of range")));
            },
        },
        None => {},
    }
    let ghost after_end = string_views(args@);
    assert(after_end =~= after_start + match params.end {
        Some(e) => seq!["--end"@, instant_compact(e)->0],
        None => Seq::<Seq<char>>::empty(),
    });
    match &params.issuer {
        Some(i) => {
            args.push(lit("--issuer"));
            args.push(i.clone());
        },
        None => {},
    }
    let ghost after_issuer = string_views(args@);
    assert(after_issuer =~= after_end + match params.issuer {
        Some(i) => seq!["--issuer"@, i@],
        None => Seq::<Seq<char>>::empty(),
    });
    match &params.info {
        Some(i) => {
            args.push(lit("--info"));
            args.push(i.clone());
        },
        None => {},
    }
    assert(string_views(args@) =~= after_issuer + match params.info {
        Some(i) => seq!["--info"@, i@],
        None => Seq::<Seq<char>>::empty(),
    });
    proof {
        law_sign_cert_args(
            signer_key_file@,
            match params.start {
                Some(t) => instant_compact(t),
                None => None,
            },
            match params.end {
                Some(t) => instant_compact(t),
                None => None,
            },
            crate::objects::opt_view(params.issuer),
            crate::objects::opt_view(params.info),
        );
    }
    Ok(args)
}

/// What `ndnd sec keygen` printed, read: the failure message when it failed,
/// else the key it printed.
pub fn key_info_from_output(success: bool, stdout: Vec<u8>, stderr_text: String) -> (r: Result<
    KeyInfo,
    Error,
>)
    ensures
        !success ==> (r matches Err(Error::OtherError(m)) && m@ == "ndnsec keygen failed: "@
            + stderr_text@),
        success && !valid_utf8(stdout@) ==> r is Err,
        success && valid_utf8(stdout@) ==> match (
            text_field(decode_utf8(stdout@), "Name"@),
            text_field(decode_utf8(stdout@), "SigType"@),
        ) {
            (Some(n), Some(s)) => r matches Ok(k) && k.name@ == n && k.sig_type@ == s
                && k.key_text@ == decode_utf8(stdout@),
            _ => r is Err,
        },
{
    if !success {
        return Err(Error::OtherError(join2("ndnsec keygen failed: ", stderr_text.as_str())));
    }
    match utf8_text(stdout) {
        Ok(text) => KeyInfo::from_key_text(text),
        Err((_, msg)) => Err(Error::OtherError(msg)),
    }
}

/// What `ndnd sec sign-cert` printed, read: the failure message when it
/// failed, else the certificate it printed.
pub fn cert_info_from_output(success: bool, stdout: Vec<u8>, stderr_text: String) -> (r: Result<
    CertInfo,
    Error,
>)
    ensures
        !success ==> (r matches Err(Error::OtherError(m)) && m@ == "ndnsec sign failed: "@
            + stderr_text@),
        success && !valid_utf8(stdout@) ==> r is Err,
        success && valid_utf8(stdout@) ==> ({
            let t = decode_utf8(stdout@);
            match (
                validity_of(t),
                text_field(t, "Name"@),
                text_field(t, "SigType"@),
                text_field(t, "SignerKey"@),
            ) {
                (Some(Err(_)), _, _, _) => r is Err,
                (Some(Ok(p)), Some(n), Some(s), Some(k)) => r matches Ok(c) && c.name@ == n
                    && c.sig_type@ == s && c.signer_key@ == k && c.validity == p && c.cert_text@
                    == t,
                (None, Some(n), Some(s), Some(k)) => r matches Ok(c) && c.name@ == n
                    && c.sig_type@ == s && c.signer_key@ == k && c.cert_text@ == t,
                _ => r is Err,
            }
        }),
{
    if !success {
        return Err(Error::OtherError(join2("ndnsec sign failed: ", stderr_text.as_str())));
    }
    match utf8_text(stdout) {
        Ok(text) => CertInfo::from_cert_text(text),
        Err((_, msg)) => Err(Error::OtherError(msg)),
    }
}

/// The arguments of `ndnd sec sign-cert` start with the subcommand and the
/// signer key file and hold two entries for each parameter that is set: its
/// flag, immediately followed by its value.
pub proof fn law_sign_cert_args(
    key_file: Seq<char>,
    start: Option<Seq<char>>,
    end: Option<Seq<char>>,
    issuer: Option<Seq<char>>,
    info: Option<Seq<char>>,
)
    ensures
        ({
            let a = sign_cert_args_spec(key_file, start, end, issuer, info);
            let set = |o: Option<Seq<char>>| -> int
                {
                    if o is Some {
                        2
                    } else {
                        0
                    }
                };
            &&& a.len() == 3 + set(start) + set(end) + set(issuer) + set(info)
            &&& a[0] == "sec"@ && a[1] == "sign-cert"@ && a[2] == key_file
            &&& start matches Some(v) ==> exists|k: int|
                3 <= k && k + 1 < a.len() && #[trigger] a[k] == "--start"@ && a[k + 1] == v
            &&& end matches Some(v) ==> exists|k: int|
                3 <= k && k + 1 < a.len() && #[trigger] a[k] == "--end"@ && a[k + 1] == v
            &&& issuer matches Some(v) ==> exists|k: int|
                3 <= k && k + 1 < a.len() && #[trigger] a[k] == "--issuer"@ && a[k + 1] == v
            &&& info matches Some(v) ==> exists|k: int|
                3 <= k && k + 1 < a.len() && #[trigger] a[k] == "--info"@ && a[k + 1] == v
        }),
{
    let a = sign_cert_args_spec(key_file, start, end, issuer, info);
    let s0: Seq<Seq<char>> = match start {
        Some(s) => seq!["--start"@, s],
        None => Seq::empty(),
    };
    let s1: Seq<Seq<char>> = match end {
        Some(e) => seq!["--end"@, e],
        None => Seq::empty(),
    };
    let s2: Seq<Seq<char>> = match issuer {
        Some(i) => seq!["--issuer"@, i],
        None => Seq::empty(),
    };
    let s3: Seq<Seq<char>> = match info {
        Some(i) => seq!["--info"@, i],
        None => Seq::empty(),
    };
    let h: Seq<Seq<char>> = seq!["sec"@, "sign-cert"@, key_file];
    assert(a =~= h + s0 + s1 + s2 + s3);
    let k0: int = 3;
    let k1: int = 3 + s0.len() as int;
    let k2: int = k1 + s1.len();
    let k3: int = k2 + s2.len();
    if start is Some {
        assert(a[k0] == "--start"@ && a[k0 + 1] == start->0);
    }
    if end is Some {
        assert(a[k1] == "--end"@ && a[k1 + 1] == end->0);
    }
    if issuer is Some {
        assert(a[k2] == "--issuer"@ && a[k2 + 1] == issuer->0);
    }
    if info is Some {
        assert(a[k3] == "--info"@ && a[k3 + 1] == info->0);
    }
}

} // verus!
