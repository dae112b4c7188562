use vstd::prelude::*;

use crate::error::MageError;
use crate::text::str_eq;
use crate::text::str_starts_with;

verus! {

/// One field of a manifest section: its key and, when the value is a string,
/// that string.
pub type FieldView = (Seq<char>, Option<Seq<char>>);

/// One section of the parsed manifest text: its key and its fields.
pub type SectionView = (Seq<char>, Seq<FieldView>);

/// What the TOML parser yields for a manifest text: each top-level key with
/// its section's fields in document order, or the parser's diagnostic. The
/// result depends on the text alone.
pub uninterp spec fn toml_manifest_of(s: Seq<char>) -> Result<Seq<SectionView>, Seq<char>>;

pub open spec fn spec_opt_view(o: Option<String>) -> Option<Seq<char>> {
    match o {
        Option::Some(s) => Option::Some(s@),
        Option::None => Option::None,
    }
}

pub open spec fn spec_field_views(fields: Seq<(String, Option<String>)>) -> Seq<FieldView> {
    fields.map(|i: int, f: (String, Option<String>)| (f.0@, spec_opt_view(f.1)))
}

pub open spec fn spec_section_views(secs: Seq<(String, Vec<(String, Option<String>)>)>) -> Seq<
    SectionView,
> {
    secs.map(|i: int, sec: (String, Vec<(String, Option<String>)>)| (sec.0@, spec_field_views(sec.1@)))
}

/// Relies on toml::from_str with key order preserved: parses the text into a
/// string-keyed table whose top-level keys keep their document order, and
/// hands each section over one for one — a field with a string value as that
/// string, any other field as None, a non-table value as an empty section.
/// On a parse failure, the parser's own diagnostic.
#[verifier::external_body]
fn parse_toml_sections(s: &str) -> (r: Result<Vec<(String, Vec<(String, Option<String>)>)>, String>)
    ensures
        match r {
            Result::Ok(v) => toml_manifest_of(s@) matches Ok(m) && spec_section_views(v@) == m,
            Result::Err(e) => toml_manifest_of(s@) matches Err(m) && e@ == m,
        },
{
    match toml::from_str::<toml::Table>(s) {
        Err(e) => Err(e.to_string()),
        Ok(table) => Ok(table.into_iter().map(|(key, value)| {
            let fields = match value {
                toml::Value::Table(sec) => sec.into_iter().map(|(f, v)| match v {
                    toml::Value::String(text) => (f, Some(text)),
                    _ => (f, None),
                }).collect(),
                _ => Vec::new(),
            };
            (key, fields)
        }).collect()),
    }
}

/// The value of the first field named `key`, if any; `None` also when that
/// field's value is not a string.
pub open spec fn spec_lookup_field(fields: Seq<FieldView>, key: Seq<char>) -> Option<Seq<char>>
    decreases fields.len(),
{
    if fields.len() == 0 {
        Option::None
    } else if fields[0].0 == key {
        fields[0].1
    } else {
        spec_lookup_field(fields.drop_first(), key)
    }
}

fn lookup_field(fields: &Vec<(String, Option<String>)>, key: &str) -> (r: Option<String>)
    ensures
        spec_opt_view(r) == spec_lookup_field(spec_field_views(fields@), key@),
{
    proof {
        assert(spec_field_views(fields@).skip(0) =~= spec_field_views(fields@));
    }
    let mut i: usize = 0;
    while i < fields.len()
        invariant
            i <= fields@.len(),
            spec_lookup_field(spec_field_views(fields@), key@) == spec_lookup_field(
                spec_field_views(fields@).skip(i as int),
                key@,
            ),
        decreases fields@.len() - i,
    {
        proof {
            assert(spec_field_views(fields@)[i as int] == (
                fields@[i as int].0@,
                spec_opt_view(fields@[i as int].1),
            ));
            assert(spec_field_views(fields@).skip(i as int)[0] == spec_field_views(
                fields@,
            )[i as int]);
            assert(spec_field_views(fields@).skip(i as int).drop_first() =~= spec_field_views(
                fields@,
            ).skip(i + 1));
        }
        if str_eq(fields[i].0.as_str(), key) {
            let r = match &fields[i].1 {
                Option::Some(v) => Option::Some(v.clone()),
                Option::None => Option::None,
            };
            return r;
        }
        i = i + 1;
    }
    None
}

/// One manifest entry: the origin name inside the dotfiles directory, the
/// required target path, and the optional install-check command.
#[derive(Debug, Clone)]
pub struct MagefileEntry {
    pub name: String,
    pub target_path: Option<String>,
    pub is_installed_cmd: Option<String>,
}

/// One entry as (name, target path, install-check command).
pub type EntryView = (Seq<char>, Option<Seq<char>>, Option<Seq<char>>);

impl View for MagefileEntry {
    type V = EntryView;

    open spec fn view(&self) -> EntryView {
        (self.name@, spec_opt_view(self.target_path), spec_opt_view(self.is_installed_cmd))
    }
}

/// The views of a list of entries, in order.
pub open spec fn spec_entry_views(es: Seq<MagefileEntry>) -> Seq<EntryView> {
    es.map(|i: int, e: MagefileEntry| e@)
}

/// The manifest: its entries in the key order of the file.
#[derive(Debug, Clone)]
pub struct Magefile {
    pub entries: Vec<MagefileEntry>,
}

impl View for Magefile {
    type V = Seq<EntryView>;

    open spec fn view(&self) -> Seq<EntryView> {
        spec_entry_views(self.entries@)
    }
}

/// The manifest read off one parsed section: the target path and the
/// install-check command are the section's fields of those names.
pub open spec fn spec_entry_of_section(sec: SectionView) -> EntryView {
    (sec.0, spec_lookup_field(sec.1, "target_path"@), spec_lookup_field(sec.1, "is_installed_cmd"@))
}

/// The manifest read off the parsed sections, in order.
pub open spec fn spec_magefile_of_sections(secs: Seq<SectionView>) -> Seq<EntryView> {
    secs.map(|i: int, sec: SectionView| spec_entry_of_section(sec))
}

/// Parses a manifest text. On a parse failure the error carries the
/// underlying parser diagnostic.
pub fn parse_magefile(s: &str) -> (r: Result<Magefile, MageError>)
    ensures
        toml_manifest_of(s@) matches Ok(secs) ==> (r matches Ok(mf) && mf@
            == spec_magefile_of_sections(secs)),
        toml_manifest_of(s@) matches Err(m) ==> (r matches Err(MageError::InvalidMageFile(d)) && d@
            == "Failed to parse magefile:\n"@ + m),
{
    let sections = match parse_toml_sections(s) {
        Result::Ok(v) => v,
        Result::Err(e) => {
            let msg = String::from_str("Failed to parse magefile:\n").concat(e.as_str());
            return Err(MageError::InvalidMageFile(msg));
        },
    };
    let mut entries: Vec<MagefileEntry> = Vec::new();
    let mut i: usize = 0;
    while i < sections.len()
        invariant
            i <= sections@.len(),
            toml_manifest_of(s@) matches Ok(secs) && secs == spec_section_views(sections@),
            spec_entry_views(entries@) == spec_magefile_of_sections(
                spec_section_views(sections@).take(i as int),
            ),
        decreases sections@.len() - i,
    {
        let name = sections[i].0.clone();
        let target_path = lookup_field(&sections[i].1, "target_path");
        let is_installed_cmd = lookup_field(&sections[i].1, "is_installed_cmd");
        let ghost pre = entries@;
        entries.push(MagefileEntry { name, target_path, is_installed_cmd });
        proof {
            let svs = spec_section_views(sections@);
            assert(svs[i as int] == (
                sections@[i as int].0@,
                spec_field_views(sections@[i as int].1@),
            ));
            assert(pre.len() == i) by {
                assert(spec_entry_views(pre).len() == pre.len());
                assert(spec_magefile_of_sections(svs.take(i as int)).len() == svs.take(
                    i as int,
                ).len());
            }
            assert(entries@.len() == i + 1);
            assert forall|k: int| 0 <= k < i + 1 implies spec_entry_views(entries@)[k]
                == spec_magefile_of_sections(svs.take(i + 1))[k] by {
                assert(svs.take(i + 1)[k] == svs[k]);
                assert(spec_entry_views(entries@)[k] == entries@[k]@);
                if k < i {
                    assert(spec_entry_views(pre)[k] == spec_magefile_of_sections(
                        svs.take(i as int),
                    )[k]);
                    assert(svs.take(i as int)[k] == svs[k]);
                    assert(entries@[k] == pre[k]);
                }
            }
            assert(spec_entry_views(entries@) =~= spec_magefile_of_sections(svs.take(i + 1)));
        }
        i = i + 1;
    }
    proof {
        assert(spec_section_views(sections@).take(sections@.len() as int) =~= spec_section_views(
            sections@,
        ));
    }
    Ok(Magefile { entries })
}

/// The first entry named `name`, if any.
pub open spec fn spec_find_entry(entries: Seq<EntryView>, name: Seq<char>) -> Option<EntryView>
    decreases entries.len(),
{
    if entries.len() == 0 {
        Option::None
    } else if entries[0].0 == name {
        Option::Some(entries[0])
    } else {
        spec_find_entry(entries.drop_first(), name)
    }
}

impl Magefile {
    /// The position of the first entry named `name`, if any.
    pub fn find_entry(&self, name: &str) -> (r: Option<usize>)
        ensures
            match r {
                Option::Some(ix) => ix < self@.len() && spec_find_entry(self@, name@)
                    == Option::Some(self@[ix as int]),
                Option::None => spec_find_entry(self@, name@) is None,
            },
    {
        proof {
            assert(self@.skip(0) =~= self@);
        }
        let mut i: usize = 0;
        while i < self.entries.len()
            invariant
                i <= self.entries@.len(),
                self@.len() == self.entries@.len(),
                spec_find_entry(self@, name@) == spec_find_entry(self@.skip(i as int), name@),
            decreases self.entries@.len() - i,
        {
            proof {
                assert(self@[i as int] == self.entries@[i as int]@);
                assert(self@.skip(i as int)[0] == self@[i as int]);
                assert(self@.skip(i as int).drop_first() =~= self@.skip(i + 1));
            }
            if str_eq(self.entries[i].name.as_str(), name) {
                return Some(i);
            }
            i = i + 1;
        }
        None
    }
}

/// The first name that begins with the manifest prefix; the scan keeps the
/// given listing order, and a missing manifest is the dedicated error.
pub fn find_magefile(names: &Vec<String>) -> (r: Result<usize, MageError>)
    ensures
        r matches Ok(i) ==> {
            &&& i < names@.len()
            &&& "magefile"@.is_prefix_of(names@[i as int]@)
            &&& forall|j: int| 0 <= j < i ==> !"magefile"@.is_prefix_of(#[trigger] names@[j]@)
        },
        r matches Err(e) ==> {
            &&& e == MageError::MageFileNotFound
            &&& forall|j: int|
                0 <= j < names@.len() ==> !"magefile"@.is_prefix_of(#[trigger] names@[j]@)
        },
{
    let mut i: usize = 0;
    while i < names.len()
        invariant
            i <= names@.len(),
            forall|j: int| 0 <= j < i ==> !"magefile"@.is_prefix_of(#[trigger] names@[j]@),
        decreases names@.len() - i,
    {
        if str_starts_with(names[i].as_str(), "magefile") {
            return Ok(i);
        }
        i = i + 1;
    }
    Err(MageError::MageFileNotFound)
}

} // verus!
