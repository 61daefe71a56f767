//! Simulator enumeration: the typed model of one device's metadata
//! (a property-list dictionary of string keys), extraction of the
//! `name` and `UDID` fields, and the walk over all device directories
//! that aborts on the first malformed entry.

use vstd::prelude::*;
use vstd::string::StringExecFns;
use crate::format::spec_gb_string;
use crate::format::format_size;

verus! {

/// One value of a device's metadata dictionary, as far as the
/// enumeration reads it: a string, or a value of any other kind.
#[derive(Debug, PartialEq, Eq)]
pub enum MetaValue {
    Text(String),
    Other,
}

/// One entry of a device's metadata dictionary.
#[derive(Debug, PartialEq, Eq)]
pub struct MetaEntry {
    pub key: String,
    pub value: MetaValue,
}

impl View for MetaValue {
    type V = Option<Seq<char>>;

    open spec fn view(&self) -> Option<Seq<char>> {
        match self {
            MetaValue::Text(text) => Some(text@),
            MetaValue::Other => None,
        }
    }
}

impl View for MetaEntry {
    type V = (Seq<char>, Option<Seq<char>>);

    open spec fn view(&self) -> (Seq<char>, Option<Seq<char>>) {
        (self.key@, self.value@)
    }
}

/// The entries of a sequence of metadata entries, as key/value views.
pub open spec fn entries_view(entries: Seq<MetaEntry>) -> Seq<(Seq<char>, Option<Seq<char>>)> {
    entries.map(|i: int, e: MetaEntry| e@)
}

/// The top-level dictionary that the property-list bytes parse to:
/// nothing when they parse to no property list or to one whose top
/// level is not a dictionary; otherwise its entries in order, each
/// value kept as text exactly where it is a string.
pub uninterp spec fn plist_top_dict(bytes: Seq<u8>) -> Option<Seq<(Seq<char>, Option<Seq<char>>)>>;

/// Relies on `plist::Value::from_reader`, which parses a property list
/// of any encoding from a seekable byte stream, on
/// `plist::Value::as_dictionary`, which returns the dictionary exactly
/// when the value is one, and on `plist::Dictionary::iter` and
/// `plist::Value::as_string`, which hand the entries out in order with
/// each value's text exactly where it is a string. The result depends
/// on the bytes alone.
#[verifier::external_body]
fn parse_plist_entries(bytes: &Vec<u8>) -> (r: Option<Vec<MetaEntry>>)
    ensures
        r is Some <==> plist_top_dict(bytes@) is Some,
        r matches Some(entries) ==> entries_view(entries@) == plist_top_dict(bytes@)->0,
{
    let value = plist::Value::from_reader(std::io::Cursor::new(bytes.as_slice())).ok()?;
    let dict = value.as_dictionary()?;
    Some(dict.iter().map(|(key, value)| MetaEntry {
        key: key.clone(),
        value: match value.as_string() {
            Some(text) => MetaValue::Text(text.to_owned()),
            None => MetaValue::Other,
        },
    }).collect())
}

/// Why a device's metadata yields no record. Every one of these aborts
/// the whole enumeration.
#[derive(Debug, PartialEq, Eq)]
pub enum MetaError {
    /// No file with the property-list extension lies in the device
    /// directory.
    NoMetadataFile,
    /// The metadata file parses to no property list, or to one whose
    /// top level is not a dictionary.
    Malformed,
    /// The dictionary has no entry under the named key.
    FieldMissing(String),
    /// The entry under the named key is not a string.
    FieldNotText(String),
}

/// Mathematical image of a `MetaError`.
pub enum MetaErrorView {
    NoMetadataFile,
    Malformed,
    FieldMissing(Seq<char>),
    FieldNotText(Seq<char>),
}

impl View for MetaError {
    type V = MetaErrorView;

    open spec fn view(&self) -> MetaErrorView {
        match self {
            MetaError::NoMetadataFile => MetaErrorView::NoMetadataFile,
            MetaError::Malformed => MetaErrorView::Malformed,
            MetaError::FieldMissing(key) => MetaErrorView::FieldMissing(key@),
            MetaError::FieldNotText(key) => MetaErrorView::FieldNotText(key@),
        }
    }
}

/// The diagnostic for each error.
pub open spec fn spec_message(e: MetaErrorView) -> Seq<char> {
    match e {
        MetaErrorView::NoMetadataFile => "no property list in the device directory"@,
        MetaErrorView::Malformed => "the device metadata is not a property-list dictionary"@,
        MetaErrorView::FieldMissing(key) => "the device metadata lacks the field "@ + key,
        MetaErrorView::FieldNotText(key) => "the device metadata field is not a string: "@ + key,
    }
}

impl MetaError {
    /// Renders the diagnostic for this error.
    pub fn message(&self) -> (r: String)
        ensures
            r@ == spec_message(self@),
    {
        match self {
            MetaError::NoMetadataFile => String::from_str(
                "no property list in the device directory",
            ),
            MetaError::Malformed => String::from_str(
                "the device metadata is not a property-list dictionary",
            ),
            MetaError::FieldMissing(key) => {
                let mut r = String::from_str("the device metadata lacks the field ");
                r.append(key.as_str());
                r
            },
            MetaError::FieldNotText(key) => {
                let mut r = String::from_str("the device metadata field is not a string: ");
                r.append(key.as_str());
                r
            },
        }
    }
}

/// The value of the first entry under the key, if any entry carries it.
pub open spec fn spec_first_match(
    entries: Seq<(Seq<char>, Option<Seq<char>>)>,
    key: Seq<char>,
) -> Option<Option<Seq<char>>>
    decreases entries.len(),
{
    if entries.len() == 0 {
        None
    } else if entries[0].0 == key {
        Some(entries[0].1)
    } else {
        spec_first_match(entries.drop_first(), key)
    }
}

/// The string under the key: missing where no entry carries the key,
/// and not text where the first entry that does is no string.
pub open spec fn spec_get_string(
    entries: Seq<(Seq<char>, Option<Seq<char>>)>,
    key: Seq<char>,
) -> Result<Seq<char>, MetaErrorView> {
    match spec_first_match(entries, key) {
        None => Err(MetaErrorView::FieldMissing(key)),
        Some(None) => Err(MetaErrorView::FieldNotText(key)),
        Some(Some(text)) => Ok(text),
    }
}

proof fn lemma_first_match_skip(
    entries: Seq<(Seq<char>, Option<Seq<char>>)>,
    i: int,
    key: Seq<char>,
)
    requires
        0 <= i < entries.len(),
    ensures
        entries[i].0 == key ==> spec_first_match(entries.skip(i), key) == Some(entries[i].1),
        entries[i].0 != key ==> spec_first_match(entries.skip(i), key) == spec_first_match(
            entries.skip(i + 1),
            key,
        ),
{
    assert(entries.skip(i).drop_first() =~= entries.skip(i + 1));
    assert(entries.skip(i)[0] == entries[i]);
}

/// How an executable string lookup relates to its mathematical image.
pub open spec fn string_result_matches(
    r: Result<String, MetaError>,
    s: Result<Seq<char>, MetaErrorView>,
) -> bool {
    &&& r is Ok <==> s is Ok
    &&& r matches Ok(text) ==> text@ == s->Ok_0
    &&& r matches Err(e) ==> e@ == s->Err_0
}

/// Looks the key up in the metadata entries and returns the string
/// under it, or says why there is none.
pub fn get_string(entries: &Vec<MetaEntry>, key: &str) -> (r: Result<String, MetaError>)
    ensures
        string_result_matches(r, spec_get_string(entries_view(entries@), key@)),
{
    let key_string = String::from_str(key);
    let ghost ev = entries_view(entries@);
    let mut i: usize = 0;
    proof {
        assert(ev.skip(0) =~= ev);
    }
    while i < entries.len()
        invariant
            0 <= i <= entries.len(),
            ev == entries_view(entries@),
            key_string@ == key@,
            spec_first_match(ev, key@) == spec_first_match(ev.skip(i as int), key@),
        decreases entries.len() - i,
    {
        proof {
            lemma_first_match_skip(ev, i as int, key@);
            assert(ev[i as int] == entries@[i as int]@);
        }
        if entries[i].key.eq(&key_string) {
            match &entries[i].value {
                MetaValue::Text(text) => {
                    return Ok(text.clone());
                },
                MetaValue::Other => {
                    return Err(MetaError::FieldNotText(key_string));
                },
            }
        }
        i = i + 1;
    }
    proof {
        assert(ev.skip(i as int) =~= Seq::<(Seq<char>, Option<Seq<char>>)>::empty());
    }
    Err(MetaError::FieldMissing(key_string))
}

/// One simulator device as the metadata names it.
#[derive(Debug, PartialEq, Eq)]
pub struct SimulatorRecord {
    pub name: String,
    pub udid: String,
}

/// How an executable record extraction relates to its mathematical
/// image: a pair of the device name and its identifier.
pub open spec fn record_result_matches(
    r: Result<SimulatorRecord, MetaError>,
    s: Result<(Seq<char>, Seq<char>), MetaErrorView>,
) -> bool {
    &&& r is Ok <==> s is Ok
    &&& r matches Ok(rec) ==> rec.name@ == s->Ok_0.0 && rec.udid@ == s->Ok_0.1
    &&& r matches Err(e) ==> e@ == s->Err_0
}

/// The name and identifier that metadata entries yield: the string
/// fields `name` and `UDID`, with the first of the two failures where
/// one is absent or no string.
pub open spec fn spec_device_record(
    entries: Seq<(Seq<char>, Option<Seq<char>>)>,
) -> Result<(Seq<char>, Seq<char>), MetaErrorView> {
    match spec_get_string(entries, "name"@) {
        Err(e) => Err(e),
        Ok(name) => match spec_get_string(entries, "UDID"@) {
            Err(e) => Err(e),
            Ok(udid) => Ok((name, udid)),
        },
    }
}

/// Extracts the device name and identifier from the metadata entries.
pub fn device_record(entries: &Vec<MetaEntry>) -> (r: Result<SimulatorRecord, MetaError>)
    ensures
        record_result_matches(r, spec_device_record(entries_view(entries@))),
{
    let name = match get_string(entries, "name") {
        Ok(name) => name,
        Err(e) => {
            return Err(e);
        },
    };
    let udid = match get_string(entries, "UDID") {
        Ok(udid) => udid,
        Err(e) => {
            return Err(e);
        },
    };
    Ok(SimulatorRecord { name, udid })
}

/// The record that the property-list bytes yield.
pub open spec fn spec_parse_record(bytes: Seq<u8>) -> Result<
    (Seq<char>, Seq<char>),
    MetaErrorView,
> {
    match plist_top_dict(bytes) {
        None => Err(MetaErrorView::Malformed),
        Some(entries) => spec_device_record(entries),
    }
}

/// Parses one device's metadata file and extracts its record.
pub fn parse_device_record(bytes: &Vec<u8>) -> (r: Result<SimulatorRecord, MetaError>)
    ensures
        record_result_matches(r, spec_parse_record(bytes@)),
{
    match parse_plist_entries(bytes) {
        None => Err(MetaError::Malformed),
        Some(entries) => device_record(&entries),
    }
}

/// Whether a file name carries the property-list extension: it ends in
/// `.plist` with a nonempty stem before it.
pub open spec fn is_plist_name(name: Seq<char>) -> bool {
    name.len() > 6 && name.subrange(name.len() - 6, name.len() as int) == ".plist"@
}

/// Decides whether one file name carries the property-list extension.
pub fn has_plist_extension(name: &str) -> (r: bool)
    ensures
        r == is_plist_name(name@),
{
    let len = name.unicode_len();
    if len <= 6 {
        return false;
    }
    let tail = name.substring_char(len - 6, len);
    String::from_str(tail).eq(&String::from_str(".plist"))
}

/// Picks the metadata file out of a device directory's file names: the
/// first one with the property-list extension, or nothing where no name
/// carries it.
pub fn select_plist(names: &Vec<String>) -> (r: Option<usize>)
    ensures
        r matches Some(i) ==> i < names@.len() && is_plist_name(names@[i as int]@) && (forall|
            j: int,
        |
            0 <= j < i ==> !is_plist_name(names@[j]@)),
        r is None ==> forall|j: int| 0 <= j < names@.len() ==> !is_plist_name(names@[j]@),
{
    let mut i: usize = 0;
    while i < names.len()
        invariant
            0 <= i <= names.len(),
            forall|j: int| 0 <= j < i ==> !is_plist_name(names@[j]@),
        decreases names.len() - i,
    {
        if has_plist_extension(names[i].as_str()) {
            return Some(i);
        }
        i = i + 1;
    }
    None
}

/// One device directory as the caller found it on disk: the bytes of
/// its metadata file, where `select_plist` picked one, and the computed
/// size of the whole directory.
#[derive(Debug, PartialEq, Eq)]
pub struct SimulatorDirectory {
    pub metadata: Option<Vec<u8>>,
    pub size_bytes: u64,
}

/// One line of the report: a device's name, its identifier, and its
/// directory's size.
#[derive(Debug, PartialEq, Eq)]
pub struct SimulatorReport {
    pub name: String,
    pub udid: String,
    pub size_bytes: u64,
}

impl View for SimulatorReport {
    type V = (Seq<char>, Seq<char>, u64);

    open spec fn view(&self) -> (Seq<char>, Seq<char>, u64) {
        (self.name@, self.udid@, self.size_bytes)
    }
}

/// The reports of a sequence of report values.
pub open spec fn reports_view(reports: Seq<SimulatorReport>) -> Seq<(Seq<char>, Seq<char>, u64)> {
    reports.map(|i: int, r: SimulatorReport| r@)
}

/// What one device directory yields: its record, or the failure of the
/// missing or malformed metadata.
pub open spec fn spec_device_outcome(d: SimulatorDirectory) -> Result<
    (Seq<char>, Seq<char>),
    MetaErrorView,
> {
    match d.metadata {
        None => Err(MetaErrorView::NoMetadataFile),
        Some(bytes) => spec_parse_record(bytes@),
    }
}

/// What enumerating the device directories yields: one report per
/// device, in order, or the failure of the first device whose metadata
/// yields none — no partial list.
pub open spec fn spec_enumerate(devices: Seq<SimulatorDirectory>) -> Result<
    Seq<(Seq<char>, Seq<char>, u64)>,
    MetaErrorView,
>
    decreases devices.len(),
{
    if devices.len() == 0 {
        Ok(Seq::empty())
    } else {
        match spec_device_outcome(devices[0]) {
            Err(e) => Err(e),
            Ok(rec) => match spec_enumerate(devices.drop_first()) {
                Err(e) => Err(e),
                Ok(rest) => Ok(seq![(rec.0, rec.1, devices[0].size_bytes)] + rest),
            },
        }
    }
}

/// Joins a prefix of finished reports with what the remaining devices
/// yield.
pub open spec fn spec_prepend(
    pre: Seq<(Seq<char>, Seq<char>, u64)>,
    rest: Result<Seq<(Seq<char>, Seq<char>, u64)>, MetaErrorView>,
) -> Result<Seq<(Seq<char>, Seq<char>, u64)>, MetaErrorView> {
    match rest {
        Ok(reports) => Ok(pre + reports),
        Err(e) => Err(e),
    }
}

proof fn lemma_spec_enumerate_skip(devices: Seq<SimulatorDirectory>, i: int)
    requires
        0 <= i < devices.len(),
    ensures
        spec_enumerate(devices.skip(i)) == (match spec_device_outcome(devices[i]) {
            Err(e) => Err(e),
            Ok(rec) => match spec_enumerate(devices.skip(i + 1)) {
                Err(e) => Err(e),
                Ok(rest) => Ok(seq![(rec.0, rec.1, devices[i].size_bytes)] + rest),
            },
        }),
{
    assert(devices.skip(i).drop_first() =~= devices.skip(i + 1));
    assert(devices.skip(i)[0] == devices[i]);
}

/// The enumeration aborts: where every device before some index yields
/// its record and the device at that index does not, the whole
/// enumeration yields no list at all, only that device's failure.
pub proof fn lemma_enumeration_aborts(devices: Seq<SimulatorDirectory>, j: int)
    requires
        0 <= j < devices.len(),
        forall|k: int| 0 <= k < j ==> spec_device_outcome(devices[k]) is Ok,
        spec_device_outcome(devices[j]) is Err,
    ensures
        spec_enumerate(devices) is Err,
        spec_enumerate(devices)->Err_0 == spec_device_outcome(devices[j])->Err_0,
    decreases j,
{
    if j == 0 {
    } else {
        assert(spec_device_outcome(devices[0]) is Ok);
        assert forall|k: int| 0 <= k < j - 1 implies spec_device_outcome(
            devices.drop_first()[k],
        ) is Ok by {
            assert(devices.drop_first()[k] == devices[k + 1]);
        }
        assert(devices.drop_first()[j - 1] == devices[j]);
        lemma_enumeration_aborts(devices.drop_first(), j - 1);
    }
}

/// Walks the device directories and gathers one report per device:
/// its metadata's name and identifier beside its size. The first device
/// whose metadata is missing or malformed aborts the walk, and no
/// partial list comes back.
pub fn enumerate_simulators(devices: &Vec<SimulatorDirectory>) -> (r: Result<
    Vec<SimulatorReport>,
    MetaError,
>)
    ensures
        r is Ok <==> spec_enumerate(devices@) is Ok,
        r matches Ok(reports) ==> reports_view(reports@) == spec_enumerate(devices@)->Ok_0,
        r matches Err(e) ==> e@ == spec_enumerate(devices@)->Err_0,
{
    let mut out: Vec<SimulatorReport> = Vec::new();
    let mut i: usize = 0;
    proof {
        assert(devices@.skip(0) =~= devices@);
        assert(reports_view(out@) =~= Seq::<(Seq<char>, Seq<char>, u64)>::empty());
        assert(reports_view(out@) + spec_enumerate(devices@)->Ok_0 =~= spec_enumerate(
            devices@,
        )->Ok_0) by {
            if spec_enumerate(devices@) is Ok {
            }
        }
    }
    while i < devices.len()
        invariant
            0 <= i <= devices.len(),
            spec_prepend(reports_view(out@), spec_enumerate(devices@.skip(i as int)))
                == spec_enumerate(devices@),
        decreases devices.len() - i,
    {
        proof {
            lemma_spec_enumerate_skip(devices@, i as int);
        }
        let d = &devices[i];
        let outcome: Result<SimulatorRecord, MetaError> = match &d.metadata {
            None => Err(MetaError::NoMetadataFile),
            Some(bytes) => parse_device_record(bytes),
        };
        match outcome {
            Err(e) => {
                return Err(e);
            },
            Ok(rec) => {
                let ghost pre = reports_view(out@);
                let report = SimulatorReport {
                    name: rec.name,
                    udid: rec.udid,
                    size_bytes: d.size_bytes,
                };
                out.push(report);
                proof {
                    assert(reports_view(out@) =~= pre + seq![
                        (rec.name@, rec.udid@, devices@[i as int].size_bytes),
                    ]);
                    let rest = spec_enumerate(devices@.skip(i as int + 1));
                    if rest is Ok {
                        assert((pre + seq![(rec.name@, rec.udid@, devices@[i as int].size_bytes)])
                            + rest->Ok_0 =~= pre + (seq![
                            (rec.name@, rec.udid@, devices@[i as int].size_bytes),
                        ] + rest->Ok_0));
                    }
                }
            },
        }
        i = i + 1;
    }
    proof {
        assert(devices@.skip(i as int) =~= Seq::<SimulatorDirectory>::empty());
        assert(reports_view(out@) + Seq::<(Seq<char>, Seq<char>, u64)>::empty() =~= reports_view(
            out@,
        ));
    }
    Ok(out)
}

impl SimulatorReport {
    /// The printed line carrying the device's name.
    pub fn name_line(&self) -> (r: String)
        ensures
            r@ == "  -"@ + self.name@,
    {
        let mut r = String::from_str("  -");
        r.append(self.name.as_str());
        r
    }

    /// The printed line carrying the device's identifier.
    pub fn udid_line(&self) -> (r: String)
        ensures
            r@ == "  -"@ + self.udid@,
    {
        let mut r = String::from_str("  -");
        r.append(self.udid.as_str());
        r
    }

    /// The printed line carrying the device directory's size in
    /// gigabytes with two fractional digits.
    pub fn size_line(&self) -> (r: String)
        ensures
            r@ == "      "@ + spec_gb_string(self.size_bytes as nat) + " GB"@,
    {
        let mut r = String::from_str("      ");
        let size = format_size(self.size_bytes);
        r.append(size.as_str());
        r.append(" GB");
        r
    }
}

} // verus!
