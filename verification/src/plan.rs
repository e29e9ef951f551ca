//! The command surface and the ordered plan of steps that the `modular`
//! command performs.
//!
//! The library decides everything here: which directories and files the
//! command touches, with what contents, and in what order.  The binary
//! shell only carries each step out.

use vstd::prelude::*;
use vstd::string::StringExecFns;
use crate::text::available_commands_text;
use crate::text::commands_text;
use crate::text::export_content_of;
use crate::text::generate_export_content;
use crate::text::generate_module_content;
use crate::text::generate_page_content;
use crate::text::generate_widgets_content;
use crate::text::module_content_of;
use crate::text::page_content_of;
use crate::text::widgets_content;

verus! {

/// A parsed command line: either the `modular` command with its name and
/// three independent flags, or the `list` command.
pub enum Command {
    /// Create the modular structure for `name`.
    Modular { name: String, bloc: bool, widgets: bool, run: bool },
    /// Print the available commands.
    List,
}

/// One step of the scaffolding sequence, in the shape the shell executes.
pub enum Step {
    /// Create the directory (and any missing parents); an already existing
    /// directory is left alone.
    MakeDir { path: String },
    /// Create the file with the given content only if no file exists at
    /// the path; an existing file is never overwritten.
    WriteFileIfAbsent { path: String, content: String },
    /// Run the external brick tool in `dir` with the given arguments.
    RunMason { dir: String, args: Vec<String> },
    /// Prepend the feature's export line to the parent aggregator file of
    /// the working directory, if that file exists and lacks the line.
    UpdateParentExports { name: String },
    /// Run the external build tool in `dir`.
    RunBuildRunner { dir: String },
}

/// The mathematical form of a step: every path, content and argument as a
/// sequence of characters.
#[verifier::ext_equal]
pub ghost enum StepView {
    MakeDir { path: Seq<char> },
    WriteFileIfAbsent { path: Seq<char>, content: Seq<char> },
    RunMason { dir: Seq<char>, args: Seq<Seq<char>> },
    UpdateParentExports { name: Seq<char> },
    RunBuildRunner { dir: Seq<char> },
}

impl View for Step {
    type V = StepView;

    open spec fn view(&self) -> StepView {
        match self {
            Step::MakeDir { path } => StepView::MakeDir { path: path@ },
            Step::WriteFileIfAbsent { path, content } => StepView::WriteFileIfAbsent {
                path: path@,
                content: content@,
            },
            Step::RunMason { dir, args } => StepView::RunMason {
                dir: dir@,
                args: args.deep_view(),
            },
            Step::UpdateParentExports { name } => StepView::UpdateParentExports { name: name@ },
            Step::RunBuildRunner { dir } => StepView::RunBuildRunner { dir: dir@ },
        }
    }
}

impl DeepView for Step {
    type V = StepView;

    open spec fn deep_view(&self) -> StepView {
        self.view()
    }
}

/// The bloc subdirectory of the feature directory.
pub open spec fn bloc_dir_of(n: Seq<char>) -> Seq<char> {
    n + "/bloc"@
}

/// The widgets subdirectory of the feature directory.
pub open spec fn widgets_dir_of(n: Seq<char>) -> Seq<char> {
    n + "/widgets"@
}

/// The widgets aggregator file inside the widgets subdirectory.
pub open spec fn widgets_file_of(n: Seq<char>) -> Seq<char> {
    n + "/widgets/widgets.dart"@
}

/// The generated page file of the feature.
pub open spec fn page_path_of(n: Seq<char>) -> Seq<char> {
    n + "/"@ + n + "_page.dart"@
}

/// The generated module file of the feature.
pub open spec fn module_path_of(n: Seq<char>) -> Seq<char> {
    n + "/"@ + n + "_module.dart"@
}

/// The feature's own export aggregator file.
pub open spec fn export_path_of(n: Seq<char>) -> Seq<char> {
    n + "/"@ + n + ".dart"@
}

/// The steps the brick tool sequence adds when the bloc flag is set: the
/// bloc directory, then initialize, install the bloc brick, and generate
/// from it with the feature's name.
pub open spec fn bloc_steps(n: Seq<char>) -> Seq<StepView> {
    seq![
        StepView::MakeDir { path: bloc_dir_of(n) },
        StepView::RunMason { dir: bloc_dir_of(n), args: seq!["init"@] },
        StepView::RunMason { dir: bloc_dir_of(n), args: seq!["add"@, "bloc"@] },
        StepView::RunMason {
            dir: bloc_dir_of(n),
            args: seq!["make"@, "bloc"@, "--name"@, n, "--style"@, "freezed"@],
        },
    ]
}

/// The steps the widgets flag adds: the widgets directory and its
/// aggregator placeholder.
pub open spec fn widgets_steps(n: Seq<char>) -> Seq<StepView> {
    seq![
        StepView::MakeDir { path: widgets_dir_of(n) },
        StepView::WriteFileIfAbsent { path: widgets_file_of(n), content: widgets_content() },
    ]
}

/// The whole ordered plan of the `modular` command for a feature name and
/// its three flags: the feature directory first, then the optional bloc
/// and widgets branches, then the page, module and aggregator files, the
/// parent aggregator update, and finally the optional build tool run.
pub open spec fn plan_spec(n: Seq<char>, bloc: bool, widgets: bool, run: bool) -> Seq<StepView> {
    seq![StepView::MakeDir { path: n }]
        + (if bloc { bloc_steps(n) } else { Seq::empty() })
        + (if widgets { widgets_steps(n) } else { Seq::empty() })
        + seq![
            StepView::WriteFileIfAbsent { path: page_path_of(n), content: page_content_of(n) },
            StepView::WriteFileIfAbsent {
                path: module_path_of(n),
                content: module_content_of(n),
            },
            StepView::WriteFileIfAbsent {
                path: export_path_of(n),
                content: export_content_of(n),
            },
            StepView::UpdateParentExports { name: n },
        ]
        + (if run { seq![StepView::RunBuildRunner { dir: n }] } else { Seq::empty() })
}

/// Builds the ordered step list of the `modular` command for a feature
/// name and its flags.
pub fn plan_modular(name: &str, bloc: bool, widgets: bool, run: bool) -> (r: Vec<Step>)
    ensures
        r.deep_view() == plan_spec(name@, bloc, widgets, run),
{
    let mut v: Vec<Step> = Vec::new();
    v.push(Step::MakeDir { path: String::from_str(name) });
    if bloc {
        let mut bloc_dir = String::from_str(name);
        bloc_dir.append("/bloc");
        v.push(Step::MakeDir { path: bloc_dir.clone() });
        v.push(Step::RunMason {
            dir: bloc_dir.clone(),
            args: vec![String::from_str("init")],
        });
        v.push(Step::RunMason {
            dir: bloc_dir.clone(),
            args: vec![String::from_str("add"), String::from_str("bloc")],
        });
        v.push(Step::RunMason {
            dir: bloc_dir,
            args: vec![
                String::from_str("make"),
                String::from_str("bloc"),
                String::from_str("--name"),
                String::from_str(name),
                String::from_str("--style"),
                String::from_str("freezed"),
            ],
        });
    }
    if widgets {
        let mut widgets_dir = String::from_str(name);
        widgets_dir.append("/widgets");
        v.push(Step::MakeDir { path: widgets_dir });
        let mut widgets_file = String::from_str(name);
        widgets_file.append("/widgets/widgets.dart");
        v.push(Step::WriteFileIfAbsent {
            path: widgets_file,
            content: generate_widgets_content(),
        });
    }
    let mut page_path = String::from_str(name);
    page_path.append("/");
    page_path.append(name);
    page_path.append("_page.dart");
    v.push(Step::WriteFileIfAbsent { path: page_path, content: generate_page_content(name) });
    let mut module_file = String::from_str(name);
    module_file.append("/");
    module_file.append(name);
    module_file.append("_module.dart");
    v.push(Step::WriteFileIfAbsent {
        path: module_file,
        content: generate_module_content(name),
    });
    let mut export_path = String::from_str(name);
    export_path.append("/");
    export_path.append(name);
    export_path.append(".dart");
    v.push(Step::WriteFileIfAbsent {
        path: export_path,
        content: generate_export_content(name),
    });
    v.push(Step::UpdateParentExports { name: String::from_str(name) });
    if run {
        v.push(Step::RunBuildRunner { dir: String::from_str(name) });
    }
    proof {
        assert(v.deep_view() =~~= plan_spec(name@, bloc, widgets, run));
    }
    v
}

/// What a parsed command amounts to: a step list to carry out, or a text
/// to print.  Only the `modular` command yields steps; `list` yields text
/// alone and therefore never touches the filesystem.
pub enum Outcome {
    /// Carry out these steps, in order.
    Execute(Vec<Step>),
    /// Print this text; nothing else happens.
    Print(String),
}

/// Decides what a command amounts to: `modular` yields its full step
/// plan, `list` yields the help text and no steps at all.
pub fn dispatch(c: &Command) -> (r: Outcome)
    ensures
        (c matches Command::Modular { name, bloc, widgets, run } ==> (r matches Outcome::Execute(
            steps,
        ) && steps.deep_view() == plan_spec(name@, *bloc, *widgets, *run))),
        (c matches Command::List ==> (r matches Outcome::Print(t) && t@ == commands_text())),
{
    match c {
        Command::Modular { name, bloc, widgets, run } => Outcome::Execute(
            plan_modular(name.as_str(), *bloc, *widgets, *run),
        ),
        Command::List => Outcome::Print(available_commands_text()),
    }
}

} // verus!
