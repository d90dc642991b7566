//! What a launch through the external launch tool needs: the directories,
//! the arguments with which the tool is called, and the time for which the
//! network is left to settle afterwards.

use crate::path::{join, joined};
use crate::text::{decimal, decimal_string, text_of, texts};
use vstd::prelude::*;

verus! {

/// The directory that is emptied before each launch.
pub open spec fn work_dir() -> Seq<char> {
    "nodes"@
}

/// The name, below the node directory of the user's profile, of the
/// directory in which the nodes keep what they generate.
pub open spec fn data_dir_name() -> Seq<char> {
    "local-test-network"@
}

/// The message of a failure to make the working directory begins with
/// this; the cause follows.
pub open spec fn no_work_dir_prefix() -> Seq<char> {
    "Cannot create nodes directory: "@
}

/// The message of the failure to find the user's home directory.
pub open spec fn no_home_message() -> Seq<char> {
    "Failed to obtain user's home path"@
}

/// What the message of a failure to make the data directory begins with;
/// the cause follows.
pub open spec fn no_data_dir_prefix() -> Seq<char> {
    "Couldn't create target path to store nodes' generated data: "@
}

/// By how much the interval between two nodes is multiplied to get the
/// time for which the network is left to settle.
pub const SETTLE_FACTOR: u64 = 15;

/// `count` copies of `c`.
pub open spec fn repeated(c: char, count: nat) -> Seq<char> {
    Seq::new(count, |i: int| c)
}

/// The argument that asks the nodes for the given level of verbosity: a
/// dash, and the letter `y` once for each level.
pub open spec fn verbosity_flag(level: nat) -> Seq<char> {
    seq!['-'] + repeated('y', level)
}

/// The directory of the node executable: the one given, or else the node
/// directory of the user's profile, `.safe/node` below the home directory.
/// Without either there is none.
pub open spec fn node_bin_path(node_path: Option<Seq<char>>, home: Option<Seq<char>>) -> Result<
    Seq<char>,
    Seq<char>,
> {
    match node_path {
        Some(path) => Ok(path),
        None => match home {
            Some(home) => Ok(joined(joined(home, ".safe"@), "node"@)),
            None => Err(no_home_message()),
        },
    }
}

/// The arguments with which the launch tool is called, its own name not
/// among them: eight that are always there, and the verbosity flag behind
/// them where the level is above zero.
pub open spec fn launch_args(
    executable: Seq<char>,
    data_dir: Seq<char>,
    interval: nat,
    verbosity: nat,
) -> Seq<Seq<char>> {
    let fixed = seq![
        "-v"@,
        "--node-path"@,
        executable,
        "--nodes-dir"@,
        data_dir,
        "--interval"@,
        decimal(interval),
        "--local"@,
    ];
    if verbosity > 0 {
        fixed.push(verbosity_flag(verbosity))
    } else {
        fixed
    }
}

/// The command line of the launch tool: its name, then its arguments.
pub open spec fn command_line(args: Seq<Seq<char>>) -> Seq<Seq<char>> {
    seq!["sn_launch_tool"@] + args
}

/// The text of a path or of the message that stands in its place.
pub open spec fn path_text(r: Result<String, String>) -> Result<Seq<char>, Seq<char>> {
    match r {
        Ok(path) => Ok(path@),
        Err(message) => Err(message@),
    }
}

/// `directories::BaseDirs::new`, and `home_dir` of what it returns: the
/// home directory of the user who runs the process, written as text.
///
/// Nothing is believed of the result: it depends on the machine and on the
/// environment of the process, and there may be none.
#[verifier::external_body]
pub(crate) fn user_home() -> (home: Option<String>) {
    match directories::BaseDirs::new() {
        Some(dirs) => Some(dirs.home_dir().display().to_string()),
        None => None,
    }
}

/// Finds the directory of the node executable, given the home directory of
/// the user where there is one.
pub fn node_bin_path_from(node_path: Option<String>, home: Option<String>) -> (path: Result<
    String,
    String,
>)
    ensures
        path_text(path) == node_bin_path(text_of(node_path), text_of(home)),
{
    match node_path {
        Some(path) => Ok(path),
        None => match home {
            Some(home) => {
                let profile = join(home.as_str(), ".safe");
                Ok(join(profile.as_str(), "node"))
            },
            None => Err("Failed to obtain user's home path".to_owned()),
        },
    }
}

/// Finds the directory of the node executable: the one given, or else the
/// node directory of the profile of the user who runs the process.
pub fn get_node_bin_path(node_path: Option<String>) -> (path: Result<String, String>)
    ensures
        node_path is Some ==> path_text(path) == Ok::<Seq<char>, Seq<char>>(node_path->0@),
        node_path is None ==> exists|home: Option<Seq<char>>|
            path_text(path) == #[trigger] node_bin_path(None, home),
{
    match node_path {
        Some(path) => Ok(path),
        None => {
            let home = user_home();
            node_bin_path_from(None, home)
        },
    }
}

/// Writes the argument that asks the nodes for the given level of
/// verbosity.
pub fn verbosity_arg(level: usize) -> (flag: String)
    ensures
        flag@ == verbosity_flag(level as nat),
{
    proof {
        reveal_strlit("-");
        reveal_strlit("y");
    }
    let mut flag = "-".to_owned();
    let mut done: usize = 0;
    while done < level
        invariant
            done <= level,
            "y"@ == seq!['y'],
            flag@ == verbosity_flag(done as nat),
        decreases level - done,
    {
        flag.append("y");
        done = done + 1;
    }
    flag
}

/// Builds the arguments with which the launch tool is called, its own name
/// not among them.
pub fn build_launch_args(
    executable: &str,
    data_dir: &str,
    interval: u64,
    verbosity: usize,
) -> (args: Vec<String>)
    ensures
        texts(args@) == launch_args(executable@, data_dir@, interval as nat, verbosity as nat),
{
    let mut args: Vec<String> = Vec::new();
    args.push("-v".to_owned());
    args.push("--node-path".to_owned());
    args.push(executable.to_owned());
    args.push("--nodes-dir".to_owned());
    args.push(data_dir.to_owned());
    args.push("--interval".to_owned());
    args.push(decimal_string(interval));
    args.push("--local".to_owned());
    if verbosity > 0 {
        args.push(verbosity_arg(verbosity));
    }
    assert(texts(args@) =~= launch_args(
        executable@,
        data_dir@,
        interval as nat,
        verbosity as nat,
    ));
    args
}

/// Puts the name of the launch tool before its arguments.
pub fn build_command_line(args: Vec<String>) -> (line: Vec<String>)
    ensures
        texts(line@) == command_line(texts(args@)),
{
    let mut line: Vec<String> = Vec::new();
    line.push("sn_launch_tool".to_owned());
    let mut args = args;
    line.append(&mut args);
    line
}

/// The seconds for which the network is left to settle after the tool has
/// returned, where that many fit a `u64`.
pub fn settle_seconds(interval: u64) -> (seconds: Option<u64>)
    ensures
        seconds == if interval * SETTLE_FACTOR <= u64::MAX {
            Some((interval * SETTLE_FACTOR) as u64)
        } else {
            None
        },
{
    interval.checked_mul(SETTLE_FACTOR)
}

/// With verbosity zero the arguments are the eight fixed ones and no flag
/// follows them. With a verbosity `k` above zero one more argument follows:
/// a dash and `k` times the letter `y`.
pub proof fn lemma_verbosity_in_args(
    executable: Seq<char>,
    data_dir: Seq<char>,
    interval: nat,
    verbosity: nat,
)
    ensures
        launch_args(executable, data_dir, interval, verbosity).subrange(0, 8) == launch_args(
            executable,
            data_dir,
            interval,
            0,
        ),
        verbosity == 0 ==> launch_args(executable, data_dir, interval, verbosity).len() == 8,
        verbosity > 0 ==> launch_args(executable, data_dir, interval, verbosity).len() == 9
            && launch_args(executable, data_dir, interval, verbosity)[8] == verbosity_flag(
            verbosity,
        ),
        verbosity_flag(verbosity).len() == verbosity + 1,
        verbosity_flag(verbosity)[0] == '-',
        forall|i: int| 1 <= i <= verbosity ==> verbosity_flag(verbosity)[i] == 'y',
{
    assert(launch_args(executable, data_dir, interval, verbosity).subrange(0, 8) =~= launch_args(
        executable,
        data_dir,
        interval,
        0,
    ));
}

/// What the settings of a launch hold.
pub struct SettingsView {
    /// The directory of the node executable, where one is given.
    pub node_path: Option<Seq<char>>,
    /// The file name of the node executable.
    pub executable: Seq<char>,
    /// The seconds between the starts of two nodes.
    pub interval: nat,
    /// The level of verbosity asked of the nodes.
    pub verbosity: nat,
}

/// The settings of a launch.
#[derive(Debug)]
pub struct LaunchSettings {
    node_path: Option<String>,
    executable: String,
    interval: u64,
    verbosity: usize,
}

impl View for LaunchSettings {
    type V = SettingsView;

    closed spec fn view(&self) -> SettingsView {
        SettingsView {
            node_path: text_of(self.node_path),
            executable: self.executable@,
            interval: self.interval as nat,
            verbosity: self.verbosity as nat,
        }
    }
}

/// The file name of the node executable, on Windows and elsewhere.
pub open spec fn node_executable(windows: bool) -> Seq<char> {
    if windows {
        "sn_node.exe"@
    } else {
        "sn_node"@
    }
}

/// The settings with which a local test network is launched: the node
/// executable of a release build in `./target/release`, three seconds
/// between two nodes, verbosity four.
pub open spec fn standard_settings(windows: bool) -> SettingsView {
    SettingsView {
        node_path: Some("./target/release"@),
        executable: node_executable(windows),
        interval: 3,
        verbosity: 4,
    }
}

impl LaunchSettings {
    #[verifier::type_invariant]
    spec fn settle_time_fits(&self) -> bool {
        self.interval * SETTLE_FACTOR <= u64::MAX
    }

    /// The time to settle fits a `u64`. This holds of the settings of every
    /// value of the type.
    pub open spec fn wf(&self) -> bool {
        self@.interval * SETTLE_FACTOR <= u64::MAX
    }

    /// Settings with the given values, unless the interval is so long that
    /// the time to settle does not fit a `u64`.
    pub fn new(
        node_path: Option<String>,
        executable: &str,
        interval: u64,
        verbosity: usize,
    ) -> (settings: Option<Self>)
        ensures
            settings is Some <==> interval * SETTLE_FACTOR <= u64::MAX,
            settings matches Some(s) ==> s.wf() && s@ == (SettingsView {
                node_path: text_of(node_path),
                executable: executable@,
                interval: interval as nat,
                verbosity: verbosity as nat,
            }),
    {
        if settle_seconds(interval).is_some() {
            let executable = executable.to_owned();
            Some(LaunchSettings { node_path, executable, interval, verbosity })
        } else {
            None
        }
    }

    /// The settings with which a local test network is launched.
    pub fn standard(windows: bool) -> (settings: Self)
        ensures
            settings.wf(),
            settings@ == standard_settings(windows),
    {
        let executable = if windows {
            "sn_node.exe".to_owned()
        } else {
            "sn_node".to_owned()
        };
        LaunchSettings {
            node_path: Some("./target/release".to_owned()),
            executable,
            interval: 3,
            verbosity: 4,
        }
    }

    /// The directory of the node executable, where one is given.
    pub fn node_path(&self) -> (path: Option<String>)
        ensures
            text_of(path) == self@.node_path,
    {
        match &self.node_path {
            Some(path) => Some(path.clone()),
            None => None,
        }
    }

    /// The file name of the node executable.
    pub fn executable(&self) -> (name: &str)
        ensures
            name@ == self@.executable,
    {
        self.executable.as_str()
    }

    /// The seconds between the starts of two nodes.
    pub fn interval(&self) -> (interval: u64)
        ensures
            interval == self@.interval,
            self.wf(),
    {
        proof {
            use_type_invariant(self);
        }
        self.interval
    }

    /// The level of verbosity asked of the nodes.
    pub fn verbosity(&self) -> (verbosity: usize)
        ensures
            verbosity == self@.verbosity,
    {
        self.verbosity
    }
}

/// What a launch needs, worked out from its settings.
pub struct PlanView {
    /// The path of the node executable.
    pub executable: Seq<char>,
    /// The directory in which the nodes keep what they generate.
    pub data_dir: Seq<char>,
    /// The command line of the launch tool, its name first.
    pub command_line: Seq<Seq<char>>,
    /// The seconds for which the network is left to settle.
    pub settle_secs: nat,
}

/// What a launch needs, worked out from its settings.
#[derive(Debug)]
pub struct LaunchPlan {
    /// The path of the node executable.
    pub executable: String,
    /// The directory in which the nodes keep what they generate.
    pub data_dir: String,
    /// The command line of the launch tool, its name first.
    pub command_line: Vec<String>,
    /// The seconds for which the network is left to settle.
    pub settle_secs: u64,
}

impl View for LaunchPlan {
    type V = PlanView;

    open spec fn view(&self) -> PlanView {
        PlanView {
            executable: self.executable@,
            data_dir: self.data_dir@,
            command_line: texts(self.command_line@),
            settle_secs: self.settle_secs as nat,
        }
    }
}

/// The text of a plan or of the message that stands in its place.
pub open spec fn plan_text(r: Result<LaunchPlan, String>) -> Result<PlanView, Seq<char>> {
    match r {
        Ok(plan) => Ok(plan@),
        Err(message) => Err(message@),
    }
}

/// What a launch with the given settings needs, for a user with the given
/// home directory.
///
/// The node executable lies in the directory that the settings give, or
/// else in the node directory of the user's profile. The nodes keep what
/// they generate below the node directory of the user's profile, whatever
/// the settings say of the executable. So without a home directory there is
/// no plan, only the message that says so.
pub open spec fn launch_plan(settings: SettingsView, home: Option<Seq<char>>) -> Result<
    PlanView,
    Seq<char>,
> {
    match node_bin_path(settings.node_path, home) {
        Err(message) => Err(message),
        Ok(bin_dir) => match node_bin_path(None, home) {
            Err(message) => Err(message),
            Ok(profile_dir) => {
                let executable = joined(bin_dir, settings.executable);
                let data_dir = joined(profile_dir, data_dir_name());
                Ok(
                    PlanView {
                        executable,
                        data_dir,
                        command_line: command_line(
                            launch_args(
                                executable,
                                data_dir,
                                settings.interval,
                                settings.verbosity,
                            ),
                        ),
                        settle_secs: settings.interval * (SETTLE_FACTOR as nat),
                    },
                )
            },
        },
    }
}

/// Works out what a launch with the given settings needs, for a user with
/// the given home directory.
pub fn plan_launch(settings: &LaunchSettings, home: Option<String>) -> (plan: Result<
    LaunchPlan,
    String,
>)
    ensures
        plan_text(plan) == launch_plan(settings@, text_of(home)),
{
    let interval = settings.interval();
    let home_again = match &home {
        Some(home) => Some(home.clone()),
        None => None,
    };
    match node_bin_path_from(settings.node_path(), home) {
        Err(message) => Err(message),
        Ok(bin_dir) => match node_bin_path_from(None, home_again) {
            Err(message) => Err(message),
            Ok(profile_dir) => {
                let executable = join(bin_dir.as_str(), settings.executable());
                let data_dir = join(profile_dir.as_str(), "local-test-network");
                let args = build_launch_args(
                    executable.as_str(),
                    data_dir.as_str(),
                    interval,
                    settings.verbosity(),
                );
                let command_line = build_command_line(args);
                Ok(
                    LaunchPlan {
                        executable,
                        data_dir,
                        command_line,
                        settle_secs: interval * SETTLE_FACTOR,
                    },
                )
            },
        },
    }
}

} // verus!
