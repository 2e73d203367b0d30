use vstd::prelude::*;
use vstd::string::StrSliceExecFns;
use vstd::string::StringExecFns;
use vstd::string::StringSliceAdditionalSpecFns;
use base64::Engine;

verus! {

/// The padded standard base64 encoding of a text's UTF-8 bytes.
pub uninterp spec fn base64_of(s: Seq<char>) -> Seq<char>;

/// The lower-case form of a text, as Unicode defines it.
pub uninterp spec fn lower_of(s: Seq<char>) -> Seq<char>;

/// Relies on base64's `Engine::encode` with the `STANDARD` engine (standard
/// alphabet, padded): the result depends on the text alone, and the empty
/// text encodes as the empty text. It panics only where the encoded length
/// overflows `usize`, which at most four bytes per character rules out here.
#[verifier::external_body]
fn encode_base64(s: &str) -> (r: String)
    requires
        s@.len() <= usize::MAX / 8,
    ensures
        r@ == base64_of(s@),
        s@.len() == 0 ==> r@.len() == 0,
{
    base64::engine::general_purpose::STANDARD.encode(s)
}

/// The gzip stream of some bytes at the default compression level.
pub uninterp spec fn gzip_of(data: Seq<u8>) -> Seq<u8>;

/// Relies on flate2's `GzEncoder` at `Compression::default()`, written into a
/// `Vec` and finished: the stream depends on the input alone, its header
/// holding no time and a fixed system byte. `None` where the encoder reports
/// an error.
#[verifier::external_body]
fn gzip(data: &Vec<u8>) -> (r: Option<Vec<u8>>)
    ensures
        r matches Some(v) ==> v@ == gzip_of(data@),
{
    let mut e = flate2::write::GzEncoder::new(Vec::new(), flate2::Compression::default());
    match std::io::Write::write_all(&mut e, data) {
        Ok(()) => e.finish().ok(),
        Err(_) => None,
    }
}

/// Relies on `str::to_lowercase`: the result depends on the text alone.
#[verifier::external_body]
fn lowercase(s: &str) -> (r: String)
    ensures
        r@ == lower_of(s@),
{
    s.to_lowercase()
}

/// `s` ends with `suffix`.
pub open spec fn ends_with(s: Seq<char>, suffix: Seq<char>) -> bool {
    suffix.len() <= s.len() && s.subrange(s.len() - suffix.len(), s.len() as int) == suffix
}

/// `r` is the index of the first of `names` that ends with `suffix`, or
/// `None` where none does.
pub open spec fn first_ending(names: Seq<Seq<char>>, suffix: Seq<char>, r: Option<usize>) -> bool {
    match r {
        Some(k) => k < names.len() && ends_with(names[k as int], suffix) && forall|j: int|
            0 <= j < k ==> !ends_with(#[trigger] names[j], suffix),
        None => forall|j: int| 0 <= j < names.len() ==> !ends_with(#[trigger] names[j], suffix),
    }
}

/// The views of some strings.
pub open spec fn views(v: Seq<String>) -> Seq<Seq<char>> {
    v.map_values(|s: String| s@)
}

/// The views of some strings, each lower-cased.
pub open spec fn lowered_views(v: Seq<String>) -> Seq<Seq<char>> {
    v.map_values(|s: String| lower_of(s@))
}

/// Whether `s` ends with `suffix`.
pub fn has_suffix(s: &str, suffix: &str) -> (r: bool)
    ensures
        r == ends_with(s@, suffix@),
{
    let n = s.unicode_len();
    let k = suffix.unicode_len();
    if k > n {
        return false;
    }
    let start = n - k;
    let mut i: usize = 0;
    while i < k
        invariant
            n == s@.len(),
            k == suffix@.len(),
            start == n - k,
            i <= k,
            forall|j: int| 0 <= j < i ==> s@[start + j] == suffix@[j],
        decreases k - i,
    {
        if s.get_char(start + i) != suffix.get_char(i) {
            assert(s@.subrange(start as int, n as int)[i as int] != suffix@[i as int]);
            return false;
        }
        i = i + 1;
    }
    assert(s@.subrange(start as int, n as int) =~= suffix@);
    true
}

fn first_with_suffix(names: &Vec<String>, suffix: &str) -> (r: Option<usize>)
    ensures
        first_ending(views(names@), suffix@, r),
{
    let mut i: usize = 0;
    while i < names.len()
        invariant
            i <= names@.len(),
            forall|j: int| 0 <= j < i ==> !ends_with(#[trigger] views(names@)[j], suffix@),
        decreases names@.len() - i,
    {
        if has_suffix(names[i].as_str(), suffix) {
            return Some(i);
        }
        i = i + 1;
    }
    None
}

/// Picks, among a folder's file names already lower-cased, the first JSON
/// file and the first XML file, by their extensions `.json` and `.xml`.
pub fn pick_files_lowered(lowered: &Vec<String>) -> (r: (Option<usize>, Option<usize>))
    ensures
        first_ending(views(lowered@), ".json"@, r.0),
        first_ending(views(lowered@), ".xml"@, r.1),
{
    (first_with_suffix(lowered, ".json"), first_with_suffix(lowered, ".xml"))
}

/// Picks, among a folder's file names, the first JSON file and the first
/// XML file, by their extensions `.json` and `.xml` in any case.
pub fn pick_files(names: &Vec<String>) -> (r: (Option<usize>, Option<usize>))
    ensures
        first_ending(lowered_views(names@), ".json"@, r.0),
        first_ending(lowered_views(names@), ".xml"@, r.1),
{
    let mut lowered: Vec<String> = Vec::new();
    let mut i: usize = 0;
    while i < names.len()
        invariant
            i <= names@.len(),
            lowered@.len() == i,
            forall|j: int| 0 <= j < i ==> (#[trigger] lowered@[j])@ == lower_of(names@[j]@),
        decreases names@.len() - i,
    {
        let l = lowercase(names[i].as_str());
        lowered.push(l);
        i = i + 1;
    }
    assert(views(lowered@) =~= lowered_views(names@));
    pick_files_lowered(&lowered)
}

/// The view of an optional text.
pub open spec fn opt_view(o: Option<&str>) -> Option<Seq<char>> {
    match o {
        Some(s) => Some(s@),
        None => None,
    }
}

/// The request body: a JSON object whose `rips` member is the JSON text
/// `rips` and whose `xmlFevFile` member is the string `xml`, each `null`
/// where absent.
pub open spec fn payload_text(rips: Option<Seq<char>>, xml: Option<Seq<char>>) -> Seq<char> {
    "{\"rips\":"@ + match rips {
        Some(j) => j,
        None => "null"@,
    } + ",\"xmlFevFile\":"@ + match xml {
        Some(x) => "\""@ + x + "\""@,
        None => "null"@,
    } + "}"@
}

/// The request body from the JSON text `rips` (in compact form) and the
/// already encoded XML document `xml_encoded`; the encoding's alphabet needs
/// no escaping in JSON.
pub fn payload_from_encoded(rips: Option<&str>, xml_encoded: Option<&str>) -> (r: String)
    ensures
        r@ == payload_text(opt_view(rips), opt_view(xml_encoded)),
{
    let mut r = String::new();
    r.append("{\"rips\":");
    match rips {
        Some(j) => r.append(j),
        None => r.append("null"),
    }
    r.append(",\"xmlFevFile\":");
    match xml_encoded {
        Some(x) => {
            r.append("\"");
            r.append(x);
            r.append("\"");
        },
        None => r.append("null"),
    }
    r.append("}");
    r
}

/// The request body from the JSON text `rips` (in compact form) and the XML
/// document `xml`, which is sent base64-encoded.
pub fn build_payload(rips: Option<&str>, xml: Option<&str>) -> (r: String)
    requires
        xml matches Some(x) ==> x@.len() <= usize::MAX / 8,
    ensures
        r@ == payload_text(
            opt_view(rips),
            match xml {
                Some(x) => Some(base64_of(x@)),
                None => None,
            },
        ),
{
    match xml {
        Some(x) => {
            let e = encode_base64(x);
            payload_from_encoded(rips, Some(e.as_str()))
        },
        None => payload_from_encoded(rips, None),
    }
}

/// The bytes sent for the request body `payload`: its UTF-8 bytes, or their
/// gzip stream where `compress`; `None` only where compressing failed.
pub fn request_body(payload: &str, compress: bool) -> (r: Option<Vec<u8>>)
    ensures
        !compress ==> (r matches Some(v) && v@ == payload.spec_bytes()),
        compress ==> (r matches Some(v) ==> v@ == gzip_of(payload.spec_bytes())),
{
    let bytes = payload.as_bytes_vec();
    if compress {
        gzip(&bytes)
    } else {
        Some(bytes)
    }
}

/// The character of a decimal digit.
pub open spec fn digit_char(d: nat) -> char {
    if d == 0 {
        '0'
    } else if d == 1 {
        '1'
    } else if d == 2 {
        '2'
    } else if d == 3 {
        '3'
    } else if d == 4 {
        '4'
    } else if d == 5 {
        '5'
    } else if d == 6 {
        '6'
    } else if d == 7 {
        '7'
    } else if d == 8 {
        '8'
    } else {
        '9'
    }
}

/// The decimal form of `n`, without leading zeros.
pub open spec fn decimal(n: nat) -> Seq<char>
    decreases n,
{
    if n < 10 {
        seq![digit_char(n)]
    } else {
        decimal(n / 10).push(digit_char(n % 10))
    }
}

fn digit_str(d: u64) -> (r: &'static str)
    requires
        d < 10,
    ensures
        r@ == seq![digit_char(d as nat)],
{
    proof {
        reveal_strlit("0");
        reveal_strlit("1");
        reveal_strlit("2");
        reveal_strlit("3");
        reveal_strlit("4");
        reveal_strlit("5");
        reveal_strlit("6");
        reveal_strlit("7");
        reveal_strlit("8");
        reveal_strlit("9");
    }
    let r = if d == 0 {
        "0"
    } else if d == 1 {
        "1"
    } else if d == 2 {
        "2"
    } else if d == 3 {
        "3"
    } else if d == 4 {
        "4"
    } else if d == 5 {
        "5"
    } else if d == 6 {
        "6"
    } else if d == 7 {
        "7"
    } else if d == 8 {
        "8"
    } else {
        "9"
    };
    assert(r@ =~= seq![digit_char(d as nat)]);
    r
}

/// Appends the decimal form of `n` to `out`.
fn append_decimal(out: &mut String, n: u64)
    ensures
        final(out)@ == old(out)@ + decimal(n as nat),
    decreases n,
{
    if n >= 10 {
        append_decimal(out, n / 10);
        out.append(digit_str(n % 10));
        assert(decimal(n as nat) == decimal((n / 10) as nat).push(digit_char((n % 10) as nat)));
    } else {
        out.append(digit_str(n));
    }
}

/// The name of the file that records the answer to a folder's post:
/// `<stem>_envio<group>_res.txt`, or `<stem>_envio<group>_res_<attempt>.txt`
/// from the second name tried on, where earlier names were taken.
pub open spec fn response_name(stem: Seq<char>, group: nat, attempt: nat) -> Seq<char> {
    if attempt == 0 {
        stem + "_envio"@ + decimal(group) + "_res.txt"@
    } else {
        stem + "_envio"@ + decimal(group) + "_res_"@ + decimal(attempt) + ".txt"@
    }
}

/// The name of the file that records the answer to a folder's post, for the
/// `attempt`-th name tried (from 0).
pub fn response_file_name(stem: &str, group: u8, attempt: u64) -> (r: String)
    ensures
        r@ == response_name(stem@, group as nat, attempt as nat),
{
    let mut r = String::new();
    r.append(stem);
    r.append("_envio");
    append_decimal(&mut r, group as u64);
    if attempt == 0 {
        r.append("_res.txt");
    } else {
        r.append("_res_");
        append_decimal(&mut r, attempt);
        r.append(".txt");
    }
    r
}

} // verus!
