use vstd::prelude::*;

use crate::args::NewTemplateArgs;
use crate::config::{default_config, resolve, Config, ConfigView};
use crate::options::{DataAvailabilityOptions, ExecutionOptions, SequencerOptions, SettlementOptions};
use crate::text::{opt_string_view, str_eq, strings_view};

verus! {

/// A template as it is persisted: the axis values by canonical name. The
/// embedded name is written by convention and never trusted over the key.
#[derive(Clone, Debug)]
pub struct TemplateRecord {
    pub template_name: Option<String>,
    pub execution: String,
    pub settlement: String,
    pub sequencer: String,
    pub data_availability: String,
}

/// The mathematical value of a [`TemplateRecord`].
pub struct RecordView {
    pub template_name: Option<Seq<char>>,
    pub execution: Seq<char>,
    pub settlement: Seq<char>,
    pub sequencer: Seq<char>,
    pub data_availability: Seq<char>,
}

impl View for TemplateRecord {
    type V = RecordView;

    open spec fn view(&self) -> RecordView {
        RecordView {
            template_name: opt_string_view(self.template_name),
            execution: self.execution@,
            settlement: self.settlement@,
            sequencer: self.sequencer@,
            data_availability: self.data_availability@,
        }
    }
}

/// Why a store operation could not go on.
#[derive(Clone, Debug)]
pub enum StoreError {
    /// The store directory does not exist.
    DirectoryMissing,
    /// The store directory holds no template.
    NoTemplates,
    /// No record exists for the name.
    NotFound { name: String },
    /// The record of the name holds, in `field`, a `value` that the axis does
    /// not know.
    InvalidRecord { name: String, field: String, value: String },
}

/// The extension that marks a file of the store as a template record.
pub open spec fn record_extension() -> Seq<char> {
    ".yaml"@
}

/// The file that holds the record of template `name`.
pub open spec fn file_name_of(name: Seq<char>) -> Seq<char> {
    name + record_extension()
}

/// The template name that a directory entry stands for: its stem, where its
/// extension is the record extension and the stem is not empty.
pub open spec fn stem_of(file: Seq<char>) -> Option<Seq<char>> {
    if file.len() > 5 && file.subrange(file.len() - 5, file.len() as int) == record_extension() {
        Some(file.subrange(0, file.len() - 5))
    } else {
        None
    }
}

/// The template names among directory entries, in the order of the entries.
pub open spec fn stems(files: Seq<Seq<char>>) -> Seq<Seq<char>>
    decreases files.len(),
{
    if files.len() == 0 {
        Seq::empty()
    } else {
        let rest = stems(files.drop_last());
        match stem_of(files.last()) {
            Some(s) => rest.push(s),
            None => rest,
        }
    }
}

/// The record that persists `config` under `name`.
pub open spec fn record_of(name: Seq<char>, config: ConfigView) -> RecordView {
    RecordView {
        template_name: Some(name),
        execution: config.execution.spec_name(),
        settlement: config.settlement.spec_name(),
        sequencer: config.sequencer.spec_name(),
        data_availability: config.data_availability.spec_name(),
    }
}

/// The configuration that record `rec` of template `name` holds, or `None`
/// where an axis value is unknown. The name is the lookup key, not the
/// record's own.
pub open spec fn record_config(name: Seq<char>, rec: RecordView) -> Option<ConfigView> {
    match (
        ExecutionOptions::spec_from_name(rec.execution),
        SettlementOptions::spec_from_name(rec.settlement),
        SequencerOptions::spec_from_name(rec.sequencer),
        DataAvailabilityOptions::spec_from_name(rec.data_availability),
    ) {
        (Some(e), Some(s), Some(q), Some(d)) => Some(
            ConfigView {
                template_name: Some(name),
                execution: e,
                settlement: s,
                sequencer: q,
                data_availability: d,
            },
        ),
        _ => None,
    }
}

/// The first field of `rec`, in the order execution, settlement, sequencer,
/// data availability, whose value its axis does not know, with that value.
pub open spec fn invalid_field(rec: RecordView) -> Option<(Seq<char>, Seq<char>)> {
    if ExecutionOptions::spec_from_name(rec.execution) is None {
        Some(("execution"@, rec.execution))
    } else if SettlementOptions::spec_from_name(rec.settlement) is None {
        Some(("settlement"@, rec.settlement))
    } else if SequencerOptions::spec_from_name(rec.sequencer) is None {
        Some(("sequencer"@, rec.sequencer))
    } else if DataAvailabilityOptions::spec_from_name(rec.data_availability) is None {
        Some(("data_availability"@, rec.data_availability))
    } else {
        None
    }
}

/// `e` is the error that reading record `rec` of template `name` gives: the
/// name, and the first field whose value is unknown.
pub open spec fn is_record_error(e: StoreError, name: Seq<char>, rec: RecordView) -> bool {
    match e {
        StoreError::InvalidRecord { name: n, field, value } => n@ == name && invalid_field(rec)
            == Some((field@, value@)),
        _ => false,
    }
}

/// What reading record `rec` of template `name` gives.
pub open spec fn record_result(name: Seq<char>, rec: RecordView, r: Result<Config, StoreError>) -> bool {
    match r {
        Ok(c) => record_config(name, rec) == Some(c@),
        Err(e) => record_config(name, rec) is None && is_record_error(e, name, rec),
    }
}

impl StoreError {
    /// The message shown to the user.
    pub fn message(&self) -> (r: String)
        ensures
            r@ == match self {
                StoreError::DirectoryMissing => "No templates directory found."@,
                StoreError::NoTemplates => "No templates found."@,
                StoreError::NotFound { name } => "No template named '"@ + name@ + "' exists"@,
                StoreError::InvalidRecord { field, value, .. } => "Failed to parse template: "@
                    + field@ + ": unknown value '"@ + value@ + "'"@,
            },
    {
        match self {
            StoreError::DirectoryMissing => String::from_str("No templates directory found."),
            StoreError::NoTemplates => String::from_str("No templates found."),
            StoreError::NotFound { name } => {
                let mut m = String::from_str("No template named '");
                m.append(name.as_str());
                m.append("' exists");
                m
            },
            StoreError::InvalidRecord { field, value, .. } => {
                let mut m = String::from_str("Failed to parse template: ");
                m.append(field.as_str());
                m.append(": unknown value '");
                m.append(value.as_str());
                m.append("'");
                m
            },
        }
    }
}

/// The name of the file that holds the record of template `name`.
pub fn record_file_name(name: &str) -> (r: String)
    ensures
        r@ == file_name_of(name@),
{
    let mut f = String::from_str(name);
    f.append(".yaml");
    proof {
        reveal_strlit(".yaml");
    }
    f
}

/// The template name that directory entry `file_name` stands for, if any.
pub fn template_stem(file_name: &str) -> (r: Option<String>)
    ensures
        opt_string_view(r) == stem_of(file_name@),
{
    proof {
        reveal_strlit(".yaml");
    }
    let n = file_name.unicode_len();
    if n <= 5 {
        return None;
    }
    let ext = file_name.substring_char(n - 5, n);
    if str_eq(ext, ".yaml") {
        Some(String::from_str(file_name.substring_char(0, n - 5)))
    } else {
        None
    }
}

/// The template names among the entries of the store directory, in the
/// order of the entries.
pub fn template_names(entries: &Vec<String>) -> (r: Vec<String>)
    ensures
        strings_view(r@) == stems(strings_view(entries@)),
{
    let mut names: Vec<String> = Vec::new();
    let mut i: usize = 0;
    while i < entries.len()
        invariant
            i <= entries@.len(),
            strings_view(names@) == stems(strings_view(entries@.take(i as int))),
        decreases entries@.len() - i,
    {
        let ghost before = names@;
        let stem = template_stem(entries[i].as_str());
        match stem {
            Some(s) => names.push(s),
            None => {},
        }
        proof {
            let files = strings_view(entries@.take(i + 1));
            assert(files.drop_last() =~= strings_view(entries@.take(i as int)));
            assert(files.last() == entries@[i as int]@);
            assert(strings_view(names@) =~= stems(files));
        }
        i = i + 1;
    }
    proof {
        assert(entries@.take(entries@.len() as int) =~= entries@);
    }
    names
}

/// The record that persists `config` under `name`. The record carries `name`
/// whatever name `config` itself holds.
pub fn template_record(name: &str, config: &Config) -> (r: TemplateRecord)
    ensures
        r@ == record_of(name@, config@),
{
    TemplateRecord {
        template_name: Some(String::from_str(name)),
        execution: config.execution.name(),
        settlement: config.settlement.name(),
        sequencer: config.sequencer.name(),
        data_availability: config.data_availability.name(),
    }
}

/// Reads the configuration out of record `rec` of template `name`.
pub fn config_from_record(name: &str, rec: &TemplateRecord) -> (r: Result<Config, StoreError>)
    ensures
        record_result(name@, rec@, r),
{
    let e = ExecutionOptions::from_name(rec.execution.as_str());
    let s = SettlementOptions::from_name(rec.settlement.as_str());
    let q = SequencerOptions::from_name(rec.sequencer.as_str());
    let d = DataAvailabilityOptions::from_name(rec.data_availability.as_str());
    match (e, s, q, d) {
        (Some(e), Some(s), Some(q), Some(d)) => Ok(
            Config {
                template_name: Some(String::from_str(name)),
                execution: e,
                settlement: s,
                sequencer: q,
                data_availability: d,
            },
        ),
        _ => {
            let (field, value) = if e.is_none() {
                (String::from_str("execution"), rec.execution.clone())
            } else if s.is_none() {
                (String::from_str("settlement"), rec.settlement.clone())
            } else if q.is_none() {
                (String::from_str("sequencer"), rec.sequencer.clone())
            } else {
                (String::from_str("data_availability"), rec.data_availability.clone())
            };
            Err(StoreError::InvalidRecord { name: String::from_str(name), field, value })
        },
    }
}

/// Loads template `name` from what the store holds for it: `None` where no
/// record exists.
pub fn load_template(name: &str, found: Option<&TemplateRecord>) -> (r: Result<Config, StoreError>)
    ensures
        match found {
            None => (r matches Err(StoreError::NotFound { name: n }) && n@ == name@),
            Some(rec) => record_result(name@, rec@, r),
        },
{
    match found {
        None => Err(StoreError::NotFound { name: String::from_str(name) }),
        Some(rec) => config_from_record(name, rec),
    }
}

/// The first step of choosing a template interactively: the names to offer,
/// from whether the store directory exists and its entries.
pub fn select_template(dir_exists: bool, entries: &Vec<String>) -> (r: Result<Vec<String>, StoreError>)
    ensures
        !dir_exists ==> r matches Err(StoreError::DirectoryMissing),
        dir_exists && stems(strings_view(entries@)).len() == 0 ==> r matches Err(
            StoreError::NoTemplates,
        ),
        dir_exists && stems(strings_view(entries@)).len() > 0 ==> (r matches Ok(names)
            && strings_view(names@) == stems(strings_view(entries@))),
{
    if !dir_exists {
        return Err(StoreError::DirectoryMissing);
    }
    let names = template_names(entries);
    if names.len() == 0 {
        Err(StoreError::NoTemplates)
    } else {
        Ok(names)
    }
}

/// The names of the templates in the store, from whether the store directory
/// exists and its entries. An empty directory gives no names and no error.
pub fn list_templates(dir_exists: bool, entries: &Vec<String>) -> (r: Result<Vec<String>, StoreError>)
    ensures
        !dir_exists ==> r matches Err(StoreError::DirectoryMissing),
        dir_exists ==> (r matches Ok(names) && strings_view(names@) == stems(
            strings_view(entries@),
        )),
{
    if !dir_exists {
        return Err(StoreError::DirectoryMissing);
    }
    Ok(template_names(entries))
}

/// The configurations of the listed templates, from each name and its
/// record, in order. The first record that does not parse fails the whole
/// listing; none is skipped.
pub fn list_configs(entries: &Vec<(String, TemplateRecord)>) -> (r: Result<Vec<(String, Config)>, StoreError>)
    ensures
        match r {
            Ok(v) => v@.len() == entries@.len() && forall|i: int|
                0 <= i < entries@.len() ==> (#[trigger] v@[i]).0@ == entries@[i].0@ && record_config(
                    entries@[i].0@,
                    entries@[i].1@,
                ) == Some(v@[i].1@),
            Err(e) => exists|k: int|
                0 <= k < entries@.len() && (forall|j: int|
                    0 <= j < k ==> (#[trigger] record_config(entries@[j].0@, entries@[j].1@)) is Some)
                    && record_config(entries@[k].0@, entries@[k].1@) is None && is_record_error(
                    e,
                    entries@[k].0@,
                    entries@[k].1@,
                ),
        },
{
    let mut out: Vec<(String, Config)> = Vec::new();
    let mut i: usize = 0;
    while i < entries.len()
        invariant
            i <= entries@.len(),
            out@.len() == i,
            forall|j: int|
                0 <= j < i ==> (#[trigger] out@[j]).0@ == entries@[j].0@ && record_config(
                    entries@[j].0@,
                    entries@[j].1@,
                ) == Some(out@[j].1@),
        decreases entries@.len() - i,
    {
        let name = &entries[i].0;
        match config_from_record(name.as_str(), &entries[i].1) {
            Ok(c) => {
                let ghost prev = out@;
                out.push((name.clone(), c));
                proof {
                    assert forall|j: int| 0 <= j < i + 1 implies (#[trigger] out@[j]).0@
                        == entries@[j].0@ && record_config(entries@[j].0@, entries@[j].1@) == Some(
                        out@[j].1@,
                    ) by {
                        if j < i {
                            assert(out@[j] == prev[j]);
                        }
                    }
                }
            },
            Err(e) => {
                proof {
                    assert forall|j: int| 0 <= j < i implies (#[trigger] record_config(
                        entries@[j].0@,
                        entries@[j].1@,
                    )) is Some by {
                        assert(record_config(entries@[j].0@, entries@[j].1@) == Some(out@[j].1@));
                    }
                }
                return Err(e);
            },
        }
        i = i + 1;
    }
    Ok(out)
}

/// What `templates delete` deletes.
#[derive(Clone, Debug)]
pub enum DeleteSelection {
    /// The template named on the command line.
    Named(String),
    /// One of these names, chosen interactively.
    Offer(Vec<String>),
    /// Nothing: the store offers no template. The error's message is shown
    /// and the command ends without failing.
    Nothing(StoreError),
}

/// Decides what `templates delete` deletes, from the name given, if any,
/// whether the store directory exists, and its entries.
pub fn delete_selection(name: &Option<String>, dir_exists: bool, entries: &Vec<String>) -> (r: DeleteSelection)
    ensures
        match name {
            Some(n) => (r matches DeleteSelection::Named(m) && m@ == n@),
            None => if !dir_exists {
                r matches DeleteSelection::Nothing(StoreError::DirectoryMissing)
            } else if stems(strings_view(entries@)).len() == 0 {
                r matches DeleteSelection::Nothing(StoreError::NoTemplates)
            } else {
                r matches DeleteSelection::Offer(v) && strings_view(v@) == stems(
                    strings_view(entries@),
                )
            },
        },
{
    match name {
        Some(n) => DeleteSelection::Named(n.clone()),
        None => match select_template(dir_exists, entries) {
            Ok(names) => DeleteSelection::Offer(names),
            Err(e) => DeleteSelection::Nothing(e),
        },
    }
}

/// What creating a template writes: the record, the file that holds it, and
/// the configuration it stands for.
#[derive(Clone, Debug)]
pub struct TemplateWrite {
    pub file_name: String,
    pub record: TemplateRecord,
    pub config: Config,
}

/// The configuration that `templates new` creates: every axis that is not
/// given takes its default, and the template name is the one given.
pub open spec fn created_config(name: Seq<char>, args: crate::args::CommonArgs) -> ConfigView {
    let c = resolve(default_config(), args);
    ConfigView {
        template_name: Some(name),
        execution: c.execution,
        settlement: c.settlement,
        sequencer: c.sequencer,
        data_availability: c.data_availability,
    }
}

/// Builds the template that `templates new` writes. An existing record of the
/// same name is overwritten by it.
pub fn create_template(args: &NewTemplateArgs) -> (r: TemplateWrite)
    ensures
        r.config@ == created_config(args.name@, args.common),
        r.record@ == record_of(args.name@, r.config@),
        r.file_name@ == file_name_of(args.name@),
{
    let base = Config::default();
    let c = crate::commands::apply_common_args(base, &args.common);
    let config = Config {
        template_name: Some(args.name.clone()),
        execution: c.execution,
        settlement: c.settlement,
        sequencer: c.sequencer,
        data_availability: c.data_availability,
    };
    let record = template_record(args.name.as_str(), &config);
    let file_name = record_file_name(args.name.as_str());
    TemplateWrite { file_name, record, config }
}

/// What deleting a template does.
#[derive(Clone, Debug)]
pub enum DeleteOutcome {
    /// The record file of the template is removed.
    Remove { name: String, file_name: String },
    /// No record exists; nothing is removed.
    Missing { name: String },
}

impl DeleteOutcome {
    /// The message shown to the user.
    pub fn message(&self) -> (r: String)
        ensures
            r@ == match self {
                DeleteOutcome::Remove { name, .. } => "Deleted template '"@ + name@ + "'"@,
                DeleteOutcome::Missing { name } => "No template named '"@ + name@ + "' found"@,
            },
    {
        match self {
            DeleteOutcome::Remove { name, .. } => {
                let mut m = String::from_str("Deleted template '");
                m.append(name.as_str());
                m.append("'");
                m
            },
            DeleteOutcome::Missing { name } => {
                let mut m = String::from_str("No template named '");
                m.append(name.as_str());
                m.append("' found");
                m
            },
        }
    }
}

/// Decides what deleting template `name` does, from whether its record exists.
pub fn delete_template(name: &str, record_exists: bool) -> (r: DeleteOutcome)
    ensures
        record_exists ==> (r matches DeleteOutcome::Remove { name: n, file_name: f } && n@ == name@
            && f@ == file_name_of(name@)),
        !record_exists ==> (r matches DeleteOutcome::Missing { name: n } && n@ == name@),
{
    if record_exists {
        DeleteOutcome::Remove {
            name: String::from_str(name),
            file_name: record_file_name(name),
        }
    } else {
        DeleteOutcome::Missing { name: String::from_str(name) }
    }
}

/// The record that a store directory, mapping file names to records, holds for
/// template `name`.
pub open spec fn lookup(dir: Map<Seq<char>, RecordView>, name: Seq<char>) -> Option<RecordView> {
    if dir.contains_key(file_name_of(name)) {
        Some(dir[file_name_of(name)])
    } else {
        None
    }
}

/// Writing the record of `config` under `name` and reading `name` back gives
/// `config` on all four axes, named `name` whatever name `config` held.
pub proof fn lemma_put_then_get(dir: Map<Seq<char>, RecordView>, name: Seq<char>, config: ConfigView)
    ensures
        lookup(dir.insert(file_name_of(name), record_of(name, config)), name) == Some(
            record_of(name, config),
        ),
        record_config(name, record_of(name, config)) == Some(
            ConfigView {
                template_name: Some(name),
                execution: config.execution,
                settlement: config.settlement,
                sequencer: config.sequencer,
                data_availability: config.data_availability,
            },
        ),
{
    config.execution.lemma_name_round_trip();
    config.settlement.lemma_name_round_trip();
    config.sequencer.lemma_name_round_trip();
    config.data_availability.lemma_name_round_trip();
}

/// Once the record file of `name` is removed, the store holds no record for
/// `name`, so loading it is `NotFound`.
pub proof fn lemma_delete_then_get(dir: Map<Seq<char>, RecordView>, name: Seq<char>)
    ensures
        lookup(dir.remove(file_name_of(name)), name) is None,
{
}

/// A store directory none of whose entries is a record, an empty one
/// included, lists no template.
pub proof fn lemma_list_empty(entries: Seq<Seq<char>>)
    requires
        forall|i: int| 0 <= i < entries.len() ==> (#[trigger] stem_of(entries[i])) is None,
    ensures
        stems(entries) == Seq::<Seq<char>>::empty(),
    decreases entries.len(),
{
    if entries.len() > 0 {
        lemma_list_empty(entries.drop_last());
        assert(stem_of(entries[entries.len() - 1]) is None);
    }
}

} // verus!
