//! The handle on a Java archive, and the recipe for launching it.

use crate::archive::{answer, contains_entry, presence, ArchiveError};
use crate::failure::{launch_result, JavaError};
use crate::path::{owned_path, paths_equal, same_path};
use vstd::prelude::*;

verus! {

/// The texts of a sequence of strings.
pub open spec fn texts(items: Seq<String>) -> Seq<Seq<char>> {
    Seq::new(items.len(), |i: int| items[i]@)
}

/// The texts of a sequence of string slices.
pub open spec fn slice_texts(items: Seq<&str>) -> Seq<Seq<char>> {
    Seq::new(items.len(), |i: int| items[i]@)
}

/// One argument of a command line.
#[derive(Debug, PartialEq, Eq)]
pub enum Argument {
    /// A text.
    Text(String),
    /// A path of the file system, handed on as it is.
    Path(std::path::PathBuf),
}

/// What an argument holds, as a plain value.
pub enum ArgumentView {
    /// A text.
    Text(Seq<char>),
    /// A path of the file system.
    Path(std::path::PathBuf),
}

impl View for Argument {
    type V = ArgumentView;

    open spec fn view(&self) -> ArgumentView {
        match self {
            Argument::Text(text) => ArgumentView::Text(text@),
            Argument::Path(path) => ArgumentView::Path(*path),
        }
    }
}

/// What a sequence of arguments holds.
pub open spec fn argument_views(items: Seq<Argument>) -> Seq<ArgumentView> {
    Seq::new(items.len(), |i: int| items[i]@)
}

/// The arguments that hold the given texts, in their order.
pub open spec fn text_arguments(items: Seq<Seq<char>>) -> Seq<ArgumentView> {
    Seq::new(items.len(), |i: int| ArgumentView::Text(items[i]))
}

/// What a launcher holds, as plain values.
pub struct LaunchPlan {
    /// Options for the virtual machine itself.
    pub opts: Seq<Seq<char>>,
    /// Arguments for the program.
    pub args: Seq<Seq<char>>,
    /// The path of the archive.
    pub jar_path: std::path::PathBuf,
    /// The name of the main class.
    pub main_class: Seq<char>,
}

/// The flag that announces the class path: `-cp`.
pub open spec fn class_path_flag() -> Seq<char> {
    seq!['-', 'c', 'p']
}

impl LaunchPlan {
    /// The argument vector of the launch: the options, the class path flag
    /// with the archive's path, the main class, and the program's arguments.
    pub open spec fn argument_vector(self) -> Seq<ArgumentView> {
        text_arguments(self.opts) + seq![
            ArgumentView::Text(class_path_flag()),
            ArgumentView::Path(self.jar_path),
            ArgumentView::Text(self.main_class),
        ] + text_arguments(self.args)
    }
}

/// The plan of a launcher made for the archive at `path`.
pub open spec fn plan_for(
    path: std::path::PathBuf,
    main_class: Seq<char>,
    opts: Seq<Seq<char>>,
    args: Seq<Seq<char>>,
) -> LaunchPlan {
    LaunchPlan { opts, args, jar_path: path, main_class }
}

/// A Java archive, named by its path.
pub struct LauncherBinary {
    path: std::path::PathBuf,
}

/// The recipe for one launch: a snapshot of the archive's path, the main
/// class, and the arguments on both sides of it.
pub struct JavaLauncher {
    opts: Vec<String>,
    args: Vec<String>,
    jar_path: std::path::PathBuf,
    main_class: String,
}

impl View for LauncherBinary {
    type V = std::path::PathBuf;

    closed spec fn view(&self) -> std::path::PathBuf {
        self.path
    }
}

impl View for JavaLauncher {
    type V = LaunchPlan;

    closed spec fn view(&self) -> LaunchPlan {
        LaunchPlan {
            opts: texts(self.opts@),
            args: texts(self.args@),
            jar_path: self.jar_path,
            main_class: self.main_class@,
        }
    }
}

/// Copies string slices into owned strings.
fn owned_strings(items: &Vec<&str>) -> (copies: Vec<String>)
    ensures
        texts(copies@) == slice_texts(items@),
{
    let mut copies: Vec<String> = Vec::new();
    let mut i: usize = 0;
    while i < items.len()
        invariant
            i <= items.len(),
            copies.len() == i,
            forall|k: int| 0 <= k < i ==> copies[k]@ == items[k]@,
        decreases items.len() - i,
    {
        copies.push(items[i].to_owned());
        i += 1;
    }
    assert(texts(copies@) =~= slice_texts(items@));
    copies
}

/// Appends an argument for each text in `items` to `out`.
fn append_texts(out: &mut Vec<Argument>, items: &Vec<String>)
    ensures
        argument_views(final(out)@) == argument_views(old(out)@) + text_arguments(texts(items@)),
{
    let ghost before = out@;
    let mut i: usize = 0;
    while i < items.len()
        invariant
            i <= items.len(),
            out.len() == before.len() + i,
            forall|k: int| 0 <= k < before.len() ==> out[k]@ == before[k]@,
            forall|k: int| 0 <= k < i ==> out[before.len() + k]@ == ArgumentView::Text(items[k]@),
        decreases items.len() - i,
    {
        out.push(Argument::Text(items[i].clone()));
        i += 1;
    }
    assert(argument_views(out@) =~= argument_views(before) + text_arguments(texts(items@)));
}

impl LauncherBinary {
    /// A handle on the archive at `path`. The path is not examined.
    pub fn new(path: std::path::PathBuf) -> (binary: LauncherBinary)
        ensures
            binary@ == path,
    {
        LauncherBinary { path }
    }

    /// The path of the archive.
    pub fn path(&self) -> (path: &std::path::Path)
        ensures
            owned_path(path) == self@,
    {
        self.path.as_path()
    }

    /// Tells whether the archive holds `main_class` as a regular file, where
    /// `contents` is what reading the file at this handle's path gave: its
    /// bytes, or the failure to read them.
    ///
    /// `main_class` is the entry's name as the archive stores it. A failed
    /// read is an error that carries its cause. An entry that is absent, or
    /// that is a directory, gives `false`.
    pub fn test_jar(&self, contents: Result<Vec<u8>, std::io::Error>, main_class: &str) -> (r:
        Result<bool, ArchiveError>)
        ensures
            match contents {
                Ok(bytes) => answer(r) == presence(bytes@, main_class@),
                Err(cause) => r == Err::<bool, ArchiveError>(ArchiveError::Unreadable(cause)),
            },
    {
        match contents {
            Ok(bytes) => contains_entry(bytes, main_class),
            Err(cause) => Err(ArchiveError::Unreadable(cause)),
        }
    }

    /// A launcher for `main_class` in this archive, with the given arguments
    /// for the program and no options for the virtual machine.
    pub fn create_launcher(&self, main_class: String, args: Vec<&str>) -> (launcher: JavaLauncher)
        ensures
            launcher@ == plan_for(
                self@,
                main_class@,
                Seq::<Seq<char>>::empty(),
                slice_texts(args@),
            ),
    {
        let launcher = JavaLauncher {
            main_class,
            args: owned_strings(&args),
            opts: Vec::new(),
            jar_path: self.path.clone(),
        };
        assert(texts(launcher.opts@) =~= Seq::<Seq<char>>::empty());
        launcher
    }

    /// A launcher for `main_class` in this archive, with the given options
    /// for the virtual machine and arguments for the program.
    pub fn create_launcher_with_options(
        &self,
        main_class: String,
        opts: Vec<&str>,
        args: Vec<&str>,
    ) -> (launcher: JavaLauncher)
        ensures
            launcher@ == plan_for(self@, main_class@, slice_texts(opts@), slice_texts(args@)),
    {
        JavaLauncher {
            main_class,
            args: owned_strings(&args),
            opts: owned_strings(&opts),
            jar_path: self.path.clone(),
        }
    }
}

impl PartialEq for LauncherBinary {
    fn eq(&self, other: &Self) -> (r: bool) {
        paths_equal(&self.path, &other.path)
    }
}

impl Eq for LauncherBinary {

}

impl vstd::std_specs::cmp::PartialEqSpecImpl for LauncherBinary {
    open spec fn obeys_eq_spec() -> bool {
        true
    }

    open spec fn eq_spec(&self, other: &Self) -> bool {
        same_path(self@, other@)
    }
}

impl JavaLauncher {
    /// The program that a launch runs, looked up on the search path.
    pub fn program() -> (name: &'static str)
        ensures
            name@ == seq!['j', 'a', 'v', 'a'],
    {
        proof {
            reveal_strlit("java");
        }
        let name = "java";
        assert(name@ =~= seq!['j', 'a', 'v', 'a']);
        name
    }

    /// The argument vector that a launch hands to the program.
    pub fn arguments(&self) -> (vector: Vec<Argument>)
        ensures
            argument_views(vector@) == self@.argument_vector(),
    {
        let mut vector: Vec<Argument> = Vec::new();
        append_texts(&mut vector, &self.opts);
        let ghost head = vector@;
        vector.push(Argument::Text("-cp".to_owned()));
        vector.push(Argument::Path(self.jar_path.clone()));
        vector.push(Argument::Text(self.main_class.clone()));
        proof {
            reveal_strlit("-cp");
            assert("-cp"@ =~= class_path_flag());
            assert(argument_views(vector@) =~= argument_views(head) + seq![
                ArgumentView::Text(class_path_flag()),
                ArgumentView::Path(self.jar_path),
                ArgumentView::Text(self.main_class@),
            ]);
        }
        append_texts(&mut vector, &self.args);
        vector
    }

    /// What a launch returns, where `status` is what starting the program
    /// and waiting for it gave: the exit code, `None` where the process
    /// ended without one, or the failure to start or to wait.
    pub fn outcome(status: Result<Option<i32>, std::io::Error>) -> (r: Result<(), JavaError>)
        ensures
            r == launch_result(status),
    {
        match status {
            Err(cause) => Err(JavaError::from(cause)),
            Ok(Some(code)) => {
                if code == 0 {
                    Ok(())
                } else {
                    Err(JavaError::ExitCode(code))
                }
            },
            Ok(None) => Err(JavaError::ExitCode(1)),
        }
    }
}

/// In the argument vector the options come first, in their order; then the
/// class path flag, the archive's path and the main class; then the
/// program's arguments, in their order. Nothing else is in it.
pub proof fn lemma_argument_order(plan: LaunchPlan)
    ensures
        plan.argument_vector().len() == plan.opts.len() + 3 + plan.args.len(),
        forall|i: int|
            0 <= i < plan.opts.len() ==> #[trigger] plan.argument_vector()[i]
                == ArgumentView::Text(plan.opts[i]),
        plan.argument_vector()[plan.opts.len() as int] == ArgumentView::Text(class_path_flag()),
        plan.argument_vector()[plan.opts.len() as int + 1] == ArgumentView::Path(plan.jar_path),
        plan.argument_vector()[plan.opts.len() as int + 2] == ArgumentView::Text(plan.main_class),
        forall|j: int|
            0 <= j < plan.args.len() ==> #[trigger] plan.argument_vector()[plan.opts.len() + 3 + j]
                == ArgumentView::Text(plan.args[j]),
{
}

/// Making a launcher is a pure function of the handle's path, the main
/// class, the options and the arguments: two launchers made from the same
/// values hold the same plan and hand the same argument vector.
pub proof fn lemma_same_inputs_same_arguments(
    path: std::path::PathBuf,
    main_class: Seq<char>,
    opts: Seq<Seq<char>>,
    args: Seq<Seq<char>>,
    first: JavaLauncher,
    second: JavaLauncher,
)
    requires
        first@ == plan_for(path, main_class, opts, args),
        second@ == plan_for(path, main_class, opts, args),
    ensures
        first@ == second@,
        first@.argument_vector() == second@.argument_vector(),
{
}

} // verus!
