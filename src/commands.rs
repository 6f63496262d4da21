use vstd::prelude::*;

use crate::args::{CommonArgs, RunDeployArgs};
use crate::cli::TemplateCommands;
use crate::config::{default_config, resolve, Config, ConfigView};
use crate::store::{
    created_config, create_template, file_name_of, is_record_error, load_template, record_config,
    record_of,
    StoreError, TemplateRecord, TemplateWrite,
};
use crate::text::{opt_string_view, strings_view};

verus! {

/// Resolves `config` against the overrides in `common`: each axis that is
/// overridden takes the override, the others keep the base's value.
pub fn apply_common_args(config: Config, common: &CommonArgs) -> (r: Config)
    ensures
        r@ == resolve(config@, *common),
{
    let mut config = config;
    if let Some(v) = common.execution {
        config.execution = v;
    }
    if let Some(v) = common.settlement {
        config.settlement = v;
    }
    if let Some(v) = common.sequencer {
        config.sequencer = v;
    }
    if let Some(v) = common.data_availability {
        config.data_availability = v;
    }
    config
}

/// No axis is overridden on the command line.
pub fn no_common_args_provided(common: &CommonArgs) -> (r: bool)
    ensures
        r == common.is_empty(),
{
    common.execution.is_none() && common.settlement.is_none() && common.sequencer.is_none()
        && common.data_availability.is_none()
}

/// The template names that a `run` or `deploy` asks for: those given with the
/// flag, then the positional ones, each in the order given.
pub open spec fn requested_names(args: RunDeployArgs) -> Seq<Seq<char>> {
    let flagged = match args.template {
        Some(v) => strings_view(v@),
        None => Seq::empty(),
    };
    flagged + strings_view(args.positional_templates@)
}

/// One resolution per requested name, in order; a single one without a
/// template where no name is requested.
pub open spec fn requests(args: RunDeployArgs) -> Seq<Option<Seq<char>>> {
    let names = requested_names(args);
    if names.len() == 0 {
        seq![None]
    } else {
        names.map_values(|n: Seq<char>| Some(n))
    }
}

/// The view of a sequence of optional names.
pub open spec fn requests_view(v: Seq<Option<String>>) -> Seq<Option<Seq<char>>> {
    v.map_values(|o: Option<String>| opt_string_view(o))
}

fn push_requests(out: &mut Vec<Option<String>>, names: &Vec<String>)
    ensures
        requests_view(final(out)@) == requests_view(old(out)@) + strings_view(names@).map_values(
            |n: Seq<char>| Some(n),
        ),
{
    let ghost start = old(out)@;
    let mut i: usize = 0;
    while i < names.len()
        invariant
            i <= names@.len(),
            requests_view(out@) == requests_view(start) + strings_view(names@.take(i as int)).map_values(
                |n: Seq<char>| Some(n),
            ),
        decreases names@.len() - i,
    {
        let ghost prev = out@;
        let c = names[i].clone();
        out.push(Some(c));
        proof {
            assert(requests_view(out@) =~= requests_view(prev).push(Some(names@[i as int]@)));
            assert(strings_view(names@.take(i + 1)) =~= strings_view(names@.take(i as int)).push(
                names@[i as int]@,
            ));
            assert(requests_view(out@) =~= requests_view(start) + strings_view(
                names@.take(i + 1),
            ).map_values(|n: Seq<char>| Some(n)));
        }
        i = i + 1;
    }
    proof {
        assert(names@.take(names@.len() as int) =~= names@);
    }
}

/// The resolutions that a `run` or `deploy` with explicit names or overrides
/// performs, in order.
pub fn execute_command(args: &RunDeployArgs) -> (r: Vec<Option<String>>)
    ensures
        requests_view(r@) == requests(*args),
{
    let mut out: Vec<Option<String>> = Vec::new();
    let empty: Vec<String> = Vec::new();
    let flagged = match &args.template {
        Some(v) => v,
        None => &empty,
    };
    push_requests(&mut out, flagged);
    push_requests(&mut out, &args.positional_templates);
    proof {
        let a = strings_view(flagged@).map_values(|n: Seq<char>| Some(n));
        let b = strings_view(args.positional_templates@).map_values(|n: Seq<char>| Some(n));
        assert(requested_names(*args).map_values(|n: Seq<char>| Some(n)) =~= a + b);
        assert(requests_view(Seq::<Option<String>>::empty()) =~= Seq::empty());
        assert(requests_view(out@) =~= a + b);
    }
    if out.len() == 0 {
        out.push(None);
        proof {
            assert(requests_view(out@) =~= seq![None]);
        }
    }
    out
}

/// How a `run` or `deploy` proceeds.
#[derive(Clone, Debug)]
pub enum Invocation {
    /// No name and no override was given: one template is chosen interactively.
    Select,
    /// One resolution per entry, in order; `None` resolves against the defaults.
    Resolve(Vec<Option<String>>),
}

/// Decides how a `run` or `deploy` proceeds.
pub fn plan_invocation(args: &RunDeployArgs) -> (r: Invocation)
    ensures
        requested_names(*args).len() == 0 && args.common.is_empty() ==> r is Select,
        !(requested_names(*args).len() == 0 && args.common.is_empty()) ==> (r matches Invocation::Resolve(v)
            && requests_view(v@) == requests(*args)),
{
    let reqs = execute_command(args);
    if reqs.len() == 1 && reqs[0].is_none() && no_common_args_provided(&args.common) {
        proof {
            if requested_names(*args).len() != 0 {
                assert(requests_view(reqs@)[0] == Some(requested_names(*args)[0]));
            }
        }
        Invocation::Select
    } else {
        proof {
            if requested_names(*args).len() == 0 {
                assert(requests_view(reqs@) == seq![None::<Seq<char>>]);
                assert(reqs@.len() == 1);
                assert(requests_view(reqs@)[0] == opt_string_view(reqs@[0]));
            }
        }
        Invocation::Resolve(reqs)
    }
}

/// The configuration one resolution yields: the overrides applied to the
/// template's configuration, or to the defaults where no template is named.
/// `found` is what the store holds for the named template.
pub fn request_config(
    template_name: &Option<String>,
    found: Option<&TemplateRecord>,
    common: &CommonArgs,
) -> (r: Result<Config, StoreError>)
    ensures
        match template_name {
            None => (r matches Ok(c) && c@ == resolve(default_config(), *common)),
            Some(n) => match found {
                None => (r matches Err(StoreError::NotFound { name: m }) && m@ == n@),
                Some(rec) => match record_config(n@, rec@) {
                    Some(b) => (r matches Ok(c) && c@ == resolve(b, *common)),
                    None => (r matches Err(e) && is_record_error(e, n@, rec@)),
                },
            },
        },
{
    match template_name {
        None => Ok(apply_common_args(Config::default(), common)),
        Some(n) => match load_template(n.as_str(), found) {
            Ok(c) => Ok(apply_common_args(c, common)),
            Err(e) => Err(e),
        },
    }
}

/// The two actions that resolved configurations are handed to.
#[derive(Clone, Copy, Debug, PartialEq, Eq, Structural)]
pub enum Mode {
    Run,
    Deploy,
}

/// The label that goes with a configuration resolved for `mode`.
pub open spec fn title_of(mode: Mode, template_name: Option<Seq<char>>) -> Seq<char> {
    let name = match template_name {
        Some(n) => n,
        None => Seq::empty(),
    };
    match mode {
        Mode::Run => "Running a local Docker setup with template '"@ + name + "':"@,
        Mode::Deploy => "Deploying to Monea Cloud with template '"@ + name + "':"@,
    }
}

/// Builds the label that goes with a configuration resolved for `mode`.
pub fn title(mode: Mode, template_name: &Option<String>) -> (r: String)
    ensures
        r@ == title_of(mode, opt_string_view(*template_name)),
{
    let mut t = match mode {
        Mode::Run => String::from_str("Running a local Docker setup with template '"),
        Mode::Deploy => String::from_str("Deploying to Monea Cloud with template '"),
    };
    match template_name {
        Some(n) => t.append(n.as_str()),
        None => {
            proof {
                reveal_strlit("");
            }
            t.append("");
        },
    }
    t.append("':");
    t
}

/// What a template management command does.
#[derive(Clone, Debug)]
pub enum TemplateAction {
    /// Write a template record.
    Create(TemplateWrite),
    /// List the templates.
    List,
    /// Delete the named template, or one chosen interactively.
    Delete(Option<String>),
}

/// Decides what a template management command does.
pub fn handle_template_commands(cmd: &TemplateCommands) -> (r: TemplateAction)
    ensures
        match cmd {
            TemplateCommands::New(args) => (r matches TemplateAction::Create(w) && w.config@
                == created_config(args.name@, args.common) && w.record@ == record_of(
                args.name@,
                w.config@,
            ) && w.file_name@ == file_name_of(args.name@)),
            TemplateCommands::List => r is List,
            TemplateCommands::Delete(args) => (r matches TemplateAction::Delete(n)
                && opt_string_view(n) == opt_string_view(args.name)),
        },
{
    match cmd {
        TemplateCommands::New(args) => TemplateAction::Create(create_template(args)),
        TemplateCommands::List => TemplateAction::List,
        TemplateCommands::Delete(args) => TemplateAction::Delete(args.name.clone()),
    }
}

} // verus!
