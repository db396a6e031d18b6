use std::collections::HashMap;
use vstd::prelude::*;

use super::text::{decimal, decimal_text};
use super::variant::Variant;

verus! {

/// An empty set of named values for a plugin to fill.
pub fn plugin_data() -> (data: PluginData)
    ensures
        data@ == Map::<String, Variant>::empty(),
{
    PluginData(HashMap::new())
}

/// Which of the two roles a plugin takes.
#[derive(Clone, Copy, Debug, PartialEq, Eq)]
pub enum PluginImplementation {
    Frontend,
    Backend,
    Both,
}

/// What one plugin declares of itself: its named capabilities, in the order
/// it gave them, and the role or roles it implements.
pub struct PluginCapabilities {
    capabilities: Vec<&'static str>,
    implementation: PluginImplementation,
}

/// Copies a list of names.
pub fn copy_names(names: &Vec<&'static str>) -> (copy: Vec<&'static str>)
    ensures
        copy@ == names@,
{
    let mut copy: Vec<&'static str> = Vec::new();
    let mut i: usize = 0;
    while i < names.len()
        invariant
            i <= names.len(),
            copy@ == names@.subrange(0, i as int),
        decreases names.len() - i,
    {
        copy.push(names[i]);
        proof {
            assert(copy@ =~= names@.subrange(0, i + 1));
        }
        i += 1;
    }
    proof {
        assert(copy@ =~= names@);
    }
    copy
}

impl PluginCapabilities {
    /// The declared capability names, in order, duplicates included.
    pub closed spec fn names(&self) -> Seq<&'static str> {
        self.capabilities@
    }

    /// The declared role.
    pub closed spec fn role(&self) -> PluginImplementation {
        self.implementation
    }

    pub fn new(capabilities: Vec<&'static str>, implementation: PluginImplementation) -> (result:
        Self)
        ensures
            result.names() == capabilities@,
            result.role() == implementation,
    {
        PluginCapabilities { capabilities, implementation }
    }

    pub fn get_capabilities(&self) -> (names: Vec<&'static str>)
        ensures
            names@ == self.names(),
    {
        copy_names(&self.capabilities)
    }

    pub fn get_implementation(&self) -> (role: PluginImplementation)
        ensures
            role == self.role(),
    {
        self.implementation
    }
}

/// Named dynamic values that a plugin hands to the daemon.
pub struct PluginData(HashMap<String, Variant>);

impl View for PluginData {
    type V = Map<String, Variant>;

    closed spec fn view(&self) -> Map<String, Variant> {
        self.0@
    }
}

impl PluginData {
    pub fn new(map: HashMap<String, Variant>) -> (data: Self)
        ensures
            data@ == map@,
    {
        PluginData(map)
    }

    /// A copy of the named values.
    pub fn get_data(&self) -> (map: HashMap<String, Variant>)
        ensures
            map@ == self@,
    {
        self.0.clone()
    }

    /// The named values themselves, given up by the plugin data.
    pub fn move_data(self) -> (map: HashMap<String, Variant>)
        ensures
            map@ == self@,
    {
        self.0
    }

    /// The named values, borrowed.
    pub fn get_data_ref(&self) -> (map: &HashMap<String, Variant>)
        ensures
            map@ == self@,
    {
        &self.0
    }
}

/// Why a plugin's self-test failed, in a few words.
#[derive(Debug)]
pub struct PluginTestError(String);

impl View for PluginTestError {
    type V = Seq<char>;

    closed spec fn view(&self) -> Seq<char> {
        self.0@
    }
}

impl PluginTestError {
    pub fn new(message: &str) -> (error: Self)
        ensures
            error@ == message@,
    {
        PluginTestError(String::from_str(message))
    }

    pub fn message(&self) -> (message: &str)
        ensures
            message@ == self@,
    {
        self.0.as_str()
    }

    /// The failure as text: its message.
    pub fn to_string(&self) -> (text: String)
        ensures
            text@ == self@,
    {
        self.0.clone()
    }
}

/// One self-test of a plugin: a name and the closure to run.
pub struct PluginTestFunc<F>(F, &'static str);

impl<F: Fn() -> Result<(), PluginTestError>> PluginTestFunc<F> {
    /// The name the test was declared with.
    pub closed spec fn label(&self) -> Seq<char> {
        self.1@
    }

    /// The closure the test was declared with.
    pub closed spec fn body(&self) -> F {
        self.0
    }

    pub fn new(func: F, name: &'static str) -> (test: Self)
        ensures
            test.label() == name@,
            test.body() == func,
    {
        PluginTestFunc(func, name)
    }

    pub fn name(&self) -> (name: &'static str)
        ensures
            name@ == self.label(),
    {
        self.1
    }

    /// Runs the test once, in the caller's thread.
    pub fn run(&self) -> (result: Result<(), PluginTestError>)
        requires
            call_requires(self.body(), ()),
        ensures
            call_ensures(self.body(), (), result),
    {
        (self.0)()
    }
}

/// How one self-test ended.
pub enum TestOutcome {
    /// The test's thread ended abnormally.
    Crashed,
    /// The test ran to its end and reported a failure.
    Failed(PluginTestError),
    /// The test ran to its end and passed.
    Successful,
}

impl TestOutcome {
    /// Reads the outcome off what joining the test's thread gave: nothing
    /// where the thread ended abnormally, the test's own result otherwise.
    pub fn from_join(joined: Option<Result<(), PluginTestError>>) -> (outcome: TestOutcome)
        ensures
            joined is None ==> outcome is Crashed,
            joined matches Some(Err(error)) ==> outcome == TestOutcome::Failed(error),
            joined matches Some(Ok(_)) ==> outcome is Successful,
    {
        match joined {
            None => TestOutcome::Crashed,
            Some(Err(error)) => TestOutcome::Failed(error),
            Some(Ok(_)) => TestOutcome::Successful,
        }
    }
}

/// A self-test that has run: its name and how it ended.
pub struct TestResult {
    pub name: String,
    pub outcome: TestOutcome,
}

pub open spec fn running_line(result: TestResult) -> Seq<char> {
    "running test "@ + result.name@ + "\n"@
}

pub open spec fn crashed_line(result: TestResult) -> Seq<char> {
    match result.outcome {
        TestOutcome::Crashed => "Thread of test "@ + result.name@ + " crashed!\n"@,
        _ => Seq::empty(),
    }
}

pub open spec fn failed_line(result: TestResult) -> Seq<char> {
    match result.outcome {
        TestOutcome::Failed(error) => "Test "@ + result.name@ + " failed with error: "@ + error@
            + "\n"@,
        _ => Seq::empty(),
    }
}

pub open spec fn success_line(result: TestResult) -> Seq<char> {
    match result.outcome {
        TestOutcome::Successful => "Success: "@ + result.name@ + "\n"@,
        _ => Seq::empty(),
    }
}

/// The lines that announce the tests, in the order the tests were declared.
pub open spec fn running_lines(results: Seq<TestResult>) -> Seq<char>
    decreases results.len(),
{
    if results.len() == 0 {
        Seq::empty()
    } else {
        running_lines(results.drop_last()) + running_line(results.last())
    }
}

/// The lines of the tests that crashed, in the order the tests were declared.
pub open spec fn crashed_lines(results: Seq<TestResult>) -> Seq<char>
    decreases results.len(),
{
    if results.len() == 0 {
        Seq::empty()
    } else {
        crashed_lines(results.drop_last()) + crashed_line(results.last())
    }
}

/// The lines of the tests that failed, each with its message, in the order
/// the tests were declared.
pub open spec fn failed_lines(results: Seq<TestResult>) -> Seq<char>
    decreases results.len(),
{
    if results.len() == 0 {
        Seq::empty()
    } else {
        failed_lines(results.drop_last()) + failed_line(results.last())
    }
}

/// The lines of the tests that passed, in the order the tests were declared.
pub open spec fn success_lines(results: Seq<TestResult>) -> Seq<char>
    decreases results.len(),
{
    if results.len() == 0 {
        Seq::empty()
    } else {
        success_lines(results.drop_last()) + success_line(results.last())
    }
}

pub open spec fn crashed_count(results: Seq<TestResult>) -> nat
    decreases results.len(),
{
    if results.len() == 0 {
        0
    } else if results.last().outcome is Crashed {
        crashed_count(results.drop_last()) + 1
    } else {
        crashed_count(results.drop_last())
    }
}

pub open spec fn failed_count(results: Seq<TestResult>) -> nat
    decreases results.len(),
{
    if results.len() == 0 {
        0
    } else if results.last().outcome is Failed {
        failed_count(results.drop_last()) + 1
    } else {
        failed_count(results.drop_last())
    }
}

pub open spec fn success_count(results: Seq<TestResult>) -> nat
    decreases results.len(),
{
    if results.len() == 0 {
        0
    } else if results.last().outcome is Successful {
        success_count(results.drop_last()) + 1
    } else {
        success_count(results.drop_last())
    }
}

/// The whole report on a plugin's self-tests, as one block of text.
pub open spec fn report_text(plugin_name: Seq<char>, results: Seq<TestResult>) -> Seq<char> {
    "\n----------- Plugin Tests for "@ + plugin_name + " -----------\n\n"@ + "running "@
        + decimal_text(results.len()) + " tests:\n"@ + running_lines(results) + "\n"@
        + decimal_text(crashed_count(results)) + " test crashed:\n"@ + crashed_lines(results)
        + "\n"@ + decimal_text(failed_count(results)) + " tests failed:\n"@ + failed_lines(
        results,
    ) + "\n"@ + decimal_text(success_count(results)) + " tests successful:\n"@ + success_lines(
        results,
    ) + "\n----------- Plugin Tests end -----------\n\n"@
}

/// Every test is counted once: as crashed, as failed or as successful.
pub proof fn lemma_every_test_is_counted(results: Seq<TestResult>)
    ensures
        crashed_count(results) + failed_count(results) + success_count(results) == results.len(),
    decreases results.len(),
{
    if results.len() > 0 {
        lemma_every_test_is_counted(results.drop_last());
    }
}

/// A test that crashed is counted as crashed, and as nothing else: adding
/// it to the results adds one to the crashed tests and leaves the failed
/// and the successful ones as they were.
pub proof fn lemma_crash_is_reported(results: Seq<TestResult>, crashed: TestResult)
    requires
        crashed.outcome is Crashed,
    ensures
        crashed_count(results.push(crashed)) == crashed_count(results) + 1,
        failed_count(results.push(crashed)) == failed_count(results),
        success_count(results.push(crashed)) == success_count(results),
        crashed_lines(results.push(crashed)) == crashed_lines(results) + "Thread of test "@
            + crashed.name@ + " crashed!\n"@,
{
    let after = results.push(crashed);
    assert(after.drop_last() =~= results);
    assert(after.last() == crashed);
    let line = "Thread of test "@ + crashed.name@ + " crashed!\n"@;
    assert(crashed_lines(results) + line =~= crashed_lines(results) + "Thread of test "@
        + crashed.name@ + " crashed!\n"@);
}

/// Writes the report on a plugin's self-tests into one buffer.
pub fn plugin_test_report(plugin_name: &str, results: &Vec<TestResult>) -> (report: String)
    ensures
        report@ == report_text(plugin_name@, results@),
{
    let mut running = String::new();
    let mut crashed = String::new();
    let mut crashed_index: usize = 0;
    let mut failed = String::new();
    let mut failed_index: usize = 0;
    let mut success = String::new();
    let mut success_index: usize = 0;
    let mut i: usize = 0;
    while i < results.len()
        invariant
            i <= results.len(),
            running@ == running_lines(results@.subrange(0, i as int)),
            crashed@ == crashed_lines(results@.subrange(0, i as int)),
            failed@ == failed_lines(results@.subrange(0, i as int)),
            success@ == success_lines(results@.subrange(0, i as int)),
            crashed_index == crashed_count(results@.subrange(0, i as int)),
            failed_index == failed_count(results@.subrange(0, i as int)),
            success_index == success_count(results@.subrange(0, i as int)),
            crashed_index + failed_index + success_index == i,
        decreases results.len() - i,
    {
        let result = &results[i];
        proof {
            let before = results@.subrange(0, i as int);
            let after = results@.subrange(0, i + 1);
            assert(after.drop_last() =~= before);
            assert(after.last() == results@[i as int]);
        }
        let mut line = String::from_str("running test ");
        line.append(result.name.as_str());
        line.append("\n");
        running.append(line.as_str());
        match &result.outcome {
            TestOutcome::Crashed => {
                let mut line = String::from_str("Thread of test ");
                line.append(result.name.as_str());
                line.append(" crashed!\n");
                crashed.append(line.as_str());
                crashed_index += 1;
                proof {
                    assert(failed@ + Seq::<char>::empty() =~= failed@);
                    assert(success@ + Seq::<char>::empty() =~= success@);
                }
            },
            TestOutcome::Failed(error) => {
                let mut line = String::from_str("Test ");
                line.append(result.name.as_str());
                line.append(" failed with error: ");
                line.append(error.message());
                line.append("\n");
                failed.append(line.as_str());
                failed_index += 1;
                proof {
                    assert(crashed@ + Seq::<char>::empty() =~= crashed@);
                    assert(success@ + Seq::<char>::empty() =~= success@);
                }
            },
            TestOutcome::Successful => {
                let mut line = String::from_str("Success: ");
                line.append(result.name.as_str());
                line.append("\n");
                success.append(line.as_str());
                success_index += 1;
                proof {
                    assert(crashed@ + Seq::<char>::empty() =~= crashed@);
                    assert(failed@ + Seq::<char>::empty() =~= failed@);
                }
            },
        }
        i += 1;
    }
    proof {
        assert(results@.subrange(0, results@.len() as int) =~= results@);
    }
    let mut buffer = String::from_str("\n----------- Plugin Tests for ");
    buffer.append(plugin_name);
    buffer.append(" -----------\n\n");
    buffer.append("running ");
    buffer.append(decimal(results.len()).as_str());
    buffer.append(" tests:\n");
    buffer.append(running.as_str());
    buffer.append("\n");
    buffer.append(decimal(crashed_index).as_str());
    buffer.append(" test crashed:\n");
    buffer.append(crashed.as_str());
    buffer.append("\n");
    buffer.append(decimal(failed_index).as_str());
    buffer.append(" tests failed:\n");
    buffer.append(failed.as_str());
    buffer.append("\n");
    buffer.append(decimal(success_index).as_str());
    buffer.append(" tests successful:\n");
    buffer.append(success.as_str());
    buffer.append("\n----------- Plugin Tests end -----------\n\n");
    buffer
}

/// What a backend plugin attaches to the bus: the object path, the tokens
/// of the interfaces it registered, and its own data.
pub struct Plugin<T> {
    pub path: String,
    pub interfaces: Vec<T>,
    pub data: PluginData,
}

impl<T> Plugin<T> {
    pub fn new(path: String, interfaces: Vec<T>, data: PluginData) -> (plugin: Self)
        ensures
            plugin.path == path,
            plugin.interfaces == interfaces,
            plugin.data == data,
    {
        Plugin { path, interfaces, data }
    }
}

/// How a frontend plugin shows in the sidebar.
pub struct SidebarInfo {
    pub name: &'static str,
    pub icon_name: &'static str,
    pub parent: Option<ParentInfo>,
}

/// The sidebar entry below which a plugin's entry is put.
pub struct ParentInfo {
    pub name: &'static str,
    pub children: i32,
}

} // verus!
