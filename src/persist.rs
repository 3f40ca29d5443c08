use crate::keys::{base58_of, encode_base58};
use crate::search::SearchOutcome;
use crate::target::{ends_with, has_suffix};
use vstd::prelude::*;

verus! {

/// The two file formats that results can be saved in.
#[derive(Clone, Copy, Debug, PartialEq, Eq, Structural)]
pub enum OutputFormat {
    Json,
    Txt,
}

/// Why results could not be saved.
#[derive(Clone, Debug, PartialEq, Eq)]
pub enum PersistError {
    /// The requested format is neither json nor txt; it holds the request.
    UnsupportedFormat(String),
    /// Writing the file failed; it holds the cause.
    WriteError(String),
}

/// One saved match, as it stands in the output file.
#[derive(Clone, Debug, PartialEq, Eq)]
pub struct AddressRecord {
    pub pub_key: String,
    pub private_key: String,
    pub suffix_type: String,
    pub created_at: String,
}

/// Where and how a list of results is to be saved.
#[derive(Clone, Debug, PartialEq, Eq)]
pub struct SavePlan {
    pub path: String,
    pub format: OutputFormat,
}

/// The lower-case form of a string.
pub uninterp spec fn lower_of(s: Seq<char>) -> Seq<char>;

/// Relies on `str::to_lowercase`: the lower-case equivalent of `s`, which
/// depends on the characters of `s` alone.
#[verifier::external_body]
fn lowercase(s: &str) -> (r: String)
    ensures
        r@ == lower_of(s@),
{
    s.to_lowercase()
}

/// The format that an already lower-cased name stands for.
pub open spec fn format_named(name: Seq<char>) -> Option<OutputFormat> {
    if name == "json"@ {
        Some(OutputFormat::Json)
    } else if name == "txt"@ {
        Some(OutputFormat::Txt)
    } else {
        None
    }
}

/// The name of the file that results for `suffix` go to when no path is
/// given: `<suffix>_addresses_<timestamp>.<format>`.
pub open spec fn spec_default_file_name(suffix: Seq<char>, timestamp: Seq<char>, format: Seq<char>) -> Seq<char> {
    suffix + "_addresses_"@ + timestamp + "."@ + format
}

/// The path that results go to: the one given, else the default name.
pub open spec fn spec_output_path(
    output: Option<Seq<char>>,
    suffix: Seq<char>,
    timestamp: Seq<char>,
    format: Seq<char>,
) -> Seq<char> {
    match output {
        Some(p) => p,
        None => spec_default_file_name(suffix, timestamp, format),
    }
}

/// Whether two strings hold the same characters.
pub fn same_text(a: &str, b: &str) -> (r: bool)
    ensures
        r == (a@ == b@),
{
    if a.unicode_len() != b.unicode_len() {
        return false;
    }
    let r = ends_with(a, b);
    assert(a@.subrange(0, a@.len() as int) =~= a@);
    r
}

/// The format that an already lower-cased name stands for, if any.
pub fn format_from_lowered(name: &str) -> (r: Option<OutputFormat>)
    ensures
        r == format_named(name@),
{
    if same_text(name, "json") {
        Some(OutputFormat::Json)
    } else if same_text(name, "txt") {
        Some(OutputFormat::Txt)
    } else {
        None
    }
}

/// A format whose lower-case form is "xml" names no format that results can
/// be saved in, so `parse_format` and `plan_save` reject it.
pub proof fn lemma_xml_names_no_format(format: Seq<char>)
    requires
        lower_of(format) == "xml"@,
    ensures
        format_named(lower_of(format)) is None,
{
    reveal_strlit("xml");
    reveal_strlit("json");
    reveal_strlit("txt");
    assert("xml"@[0] != "json"@[0]);
    assert("xml"@[0] != "txt"@[0]);
}

/// The format that `format` names, in any case of letters.
pub fn parse_format(format: &str) -> (r: Result<OutputFormat, PersistError>)
    ensures
        match format_named(lower_of(format@)) {
            Some(f) => r == Ok::<OutputFormat, PersistError>(f),
            None => r is Err && r->Err_0 is UnsupportedFormat && r->Err_0->UnsupportedFormat_0@
                == format@,
        },
{
    let lowered = lowercase(format);
    match format_from_lowered(lowered.as_str()) {
        Some(f) => Ok(f),
        None => Err(PersistError::UnsupportedFormat(format.to_owned())),
    }
}

/// `<suffix>_addresses_<timestamp>.<format>`.
pub fn default_file_name(suffix: &str, timestamp: &str, format: &str) -> (r: String)
    ensures
        r@ == spec_default_file_name(suffix@, timestamp@, format@),
{
    let mut name = suffix.to_owned();
    name.append("_addresses_");
    name.append(timestamp);
    name.append(".");
    name.append(format);
    name
}

/// Decides where and how results for `suffix` are saved. The path is
/// `output` if given, else the default name; the format must be json or txt
/// in any case of letters, else nothing is to be written.
pub fn plan_save(suffix: &str, format: &str, output: Option<&str>, timestamp: &str) -> (r: Result<
    SavePlan,
    PersistError,
>)
    ensures
        match format_named(lower_of(format@)) {
            Some(f) => r is Ok && r->Ok_0.format == f && r->Ok_0.path@ == spec_output_path(
                match output {
                    Some(p) => Some(p@),
                    None => None,
                },
                suffix@,
                timestamp@,
                format@,
            ),
            None => r is Err && r->Err_0 is UnsupportedFormat && r->Err_0->UnsupportedFormat_0@
                == format@,
        },
{
    let path = match output {
        Some(p) => p.to_owned(),
        None => default_file_name(suffix, timestamp, format),
    };
    match parse_format(format) {
        Ok(f) => Ok(SavePlan { path, format: f }),
        Err(e) => Err(e),
    }
}

/// The output name for one suffix of a two-suffix run:
/// `<prefix>_<label>` when a prefix is given.
pub fn labelled_output(prefix: Option<&str>, label: &str) -> (r: Option<String>)
    ensures
        match prefix {
            Some(p) => r is Some && r->Some_0@ == p@ + "_"@ + label@,
            None => r is None,
        },
{
    match prefix {
        Some(p) => {
            let mut name = p.to_owned();
            name.append("_");
            name.append(label);
            Some(name)
        },
        None => None,
    }
}

/// The records to save for `results`, in order: each with its own address,
/// its own keypair's 64 bytes in base-58, the suffix and the creation time.
pub fn address_records(results: &Vec<SearchOutcome>, suffix: &str, created_at: &str) -> (r: Vec<
    AddressRecord,
>)
    ensures
        r@.len() == results@.len(),
        forall|i: int|
            0 <= i < r@.len() ==> {
                &&& (#[trigger] r@[i]).pub_key@ == results@[i].spec_address()
                &&& r@[i].suffix_type@ == suffix@
                &&& r@[i].created_at@ == created_at@
                &&& r@[i].private_key@ == base58_of(results@[i].spec_secret())
            },
{
    let mut records: Vec<AddressRecord> = Vec::new();
    let mut i: usize = 0;
    while i < results.len()
        invariant
            i <= results@.len(),
            records@.len() == i,
            forall|k: int|
                0 <= k < i ==> {
                    &&& (#[trigger] records@[k]).pub_key@ == results@[k].spec_address()
                    &&& records@[k].suffix_type@ == suffix@
                    &&& records@[k].created_at@ == created_at@
                    &&& records@[k].private_key@ == base58_of(results@[k].spec_secret())
                },
        decreases results@.len() - i,
    {
        let outcome = &results[i];
        let private_key = encode_base58(outcome.secret());
        let record = AddressRecord {
            pub_key: outcome.address().clone(),
            private_key,
            suffix_type: suffix.to_owned(),
            created_at: created_at.to_owned(),
        };
        records.push(record);
        i = i + 1;
    }
    records
}

/// The comment lines that open a text file.
pub open spec fn txt_header(suffix: Seq<char>, generated_at: Seq<char>) -> Seq<char> {
    "# Solana Mint Addresses - Generated with suffix '"@ + suffix + "'\n"@ + "# Generated at: "@
        + generated_at + "\n"@ + "# Format: public_key,private_key,suffix_type\n"@ + "\n"@
}

/// The line of a text file for one record: `pub_key,private_key,suffix`.
pub open spec fn txt_line(record: AddressRecord, suffix: Seq<char>) -> Seq<char> {
    record.pub_key@ + ","@ + record.private_key@ + ","@ + suffix + "\n"@
}

/// The lines of a text file for `records`, in order.
pub open spec fn txt_rows(records: Seq<AddressRecord>, suffix: Seq<char>) -> Seq<char>
    decreases records.len(),
{
    if records.len() == 0 {
        Seq::empty()
    } else {
        txt_rows(records.drop_last(), suffix) + txt_line(records.last(), suffix)
    }
}

/// The whole text file for `records` saved under `suffix`.
pub fn txt_document(records: &Vec<AddressRecord>, suffix: &str, generated_at: &str) -> (r: String)
    ensures
        r@ == txt_header(suffix@, generated_at@) + txt_rows(records@, suffix@),
{
    let mut out = String::new();
    out.append("# Solana Mint Addresses - Generated with suffix '");
    out.append(suffix);
    out.append("'\n");
    out.append("# Generated at: ");
    out.append(generated_at);
    out.append("\n");
    out.append("# Format: public_key,private_key,suffix_type\n");
    out.append("\n");
    let ghost header = out@;
    assert(header =~= txt_header(suffix@, generated_at@));
    let mut i: usize = 0;
    assert(records@.take(0) =~= Seq::<AddressRecord>::empty());
    while i < records.len()
        invariant
            i <= records@.len(),
            header == txt_header(suffix@, generated_at@),
            out@ == header + txt_rows(records@.take(i as int), suffix@),
        decreases records@.len() - i,
    {
        let record = &records[i];
        let ghost before = out@;
        out.append(record.pub_key.as_str());
        out.append(",");
        out.append(record.private_key.as_str());
        out.append(",");
        out.append(suffix);
        out.append("\n");
        assert(records@.take(i + 1).drop_last() =~= records@.take(i as int));
        assert(records@.take(i + 1).last() == records@[i as int]);
        assert(out@ =~= header + txt_rows(records@.take(i + 1), suffix@));
        i = i + 1;
    }
    assert(records@.take(records@.len() as int) =~= records@);
    out
}

} // verus!
