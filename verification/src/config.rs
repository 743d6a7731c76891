//! The settings that the poller runs with.

use crate::text::decimal;
use crate::text::decimal_text;
use std::path::PathBuf;
use vstd::prelude::*;
use vstd::string::StringExecFns;

verus! {

/// `std::path::PathBuf`, which is carried through and never looked into.
#[verifier::external_type_specification]
#[verifier::external_body]
pub struct ExPathBuf(PathBuf);

/// The directory that the snapshot is kept in.
#[derive(Debug)]
pub struct DataDir(PathBuf);

/// The name of the directory that is used below the data directory of the
/// platform where the settings name none.
pub open spec fn data_subdirectory_name() -> Seq<char> {
    "cats"@
}

/// The name of the directory that is used below the data directory of the
/// platform where the settings name none.
pub fn data_subdirectory() -> (name: &'static str)
    ensures
        name@ == data_subdirectory_name(),
{
    "cats"
}

impl DataDir {
    /// The path of the directory.
    pub closed spec fn location(&self) -> PathBuf {
        self.0
    }

    /// The directory at `path`.
    pub fn new(path: PathBuf) -> (dir: DataDir)
        ensures
            dir.location() == path,
    {
        DataDir(path)
    }

    /// The path of the directory.
    pub fn path(&self) -> (path: &PathBuf)
        ensures
            *path == self.location(),
    {
        &self.0
    }
}

/// The time between two polls, as a number of hours.
#[derive(Debug)]
pub struct RefreshTime(u64);

impl RefreshTime {
    /// The number held.
    pub closed spec fn spec_hours(&self) -> u64 {
        self.0
    }

    /// A refresh time of `hours`.
    pub fn new(hours: u64) -> (time: RefreshTime)
        ensures
            time.hours() == hours,
    {
        RefreshTime(hours)
    }

    /// The number held.
    #[verifier::when_used_as_spec(spec_hours)]
    pub fn hours(&self) -> (hours: u64)
        ensures
            hours == self.hours(),
    {
        self.0
    }
}

impl Default for RefreshTime {
    /// One hour.
    fn default() -> (time: RefreshTime)
        ensures
            time.hours() == 1,
    {
        RefreshTime(1)
    }
}

/// The settings: where to ask, for which postcode, how often, and where to
/// keep the answer.
#[derive(Debug)]
pub struct Config {
    refresh_time: RefreshTime,
    endpoint: String,
    postcode: String,
    data_dir: DataDir,
}

/// A `Config` as a mathematical value.
pub struct ConfigView {
    pub refresh_time: u64,
    pub endpoint: Seq<char>,
    pub postcode: Seq<char>,
    pub data_dir: PathBuf,
}

impl View for Config {
    type V = ConfigView;

    closed spec fn view(&self) -> ConfigView {
        ConfigView {
            refresh_time: self.refresh_time.hours(),
            endpoint: self.endpoint@,
            postcode: self.postcode@,
            data_dir: self.data_dir.location(),
        }
    }
}

/// The report of the settings, with `data_dir` standing for the data
/// directory: a heading and one line for each setting, each ended by a line
/// feed.
pub open spec fn summary_text(config: ConfigView, data_dir: Seq<char>) -> Seq<char> {
    "Running CATS daemon with the following settings:\n"@ + "Refresh time: "@ + decimal_text(
        config.refresh_time as nat,
    ) + " hour\n"@ + "API endpoint: "@ + config.endpoint + "\n"@ + "Server Postcode: "@
        + config.postcode + "\n"@ + "Data directory: "@ + data_dir + "\n"@
}

impl Config {
    /// The settings made of these four.
    pub fn new(refresh_time: RefreshTime, endpoint: String, postcode: String, data_dir: DataDir) -> (config: Config)
        ensures
            config@.refresh_time == refresh_time.hours(),
            config@.endpoint == endpoint@,
            config@.postcode == postcode@,
            config@.data_dir == data_dir.location(),
    {
        Config { refresh_time, endpoint, postcode, data_dir }
    }

    /// The directory that the snapshot is kept in.
    pub fn data_dir(&self) -> (dir: &PathBuf)
        ensures
            *dir == self@.data_dir,
    {
        &self.data_dir.0
    }

    /// The base of the request address.
    pub fn endpoint(&self) -> (endpoint: &str)
        ensures
            endpoint@ == self@.endpoint,
    {
        self.endpoint.as_str()
    }

    /// The postcode as it was configured.
    pub fn postcode(&self) -> (postcode: &str)
        ensures
            postcode@ == self@.postcode,
    {
        self.postcode.as_str()
    }

    /// The configured time between two polls.
    pub fn refresh_time(&self) -> (time: u64)
        ensures
            time == self@.refresh_time,
    {
        self.refresh_time.0
    }

    /// Writes the report of the settings. The data directory is given as
    /// text by the caller, who knows how its path is to be shown.
    pub fn summary(&self, data_dir: &str) -> (report: String)
        ensures
            report@ == summary_text(self@, data_dir@),
    {
        let mut report = String::from_str("Running CATS daemon with the following settings:\n");
        report.append("Refresh time: ");
        report.append(decimal(self.refresh_time.0).as_str());
        report.append(" hour\n");
        report.append("API endpoint: ");
        report.append(self.endpoint.as_str());
        report.append("\n");
        report.append("Server Postcode: ");
        report.append(self.postcode.as_str());
        report.append("\n");
        report.append("Data directory: ");
        report.append(data_dir);
        report.append("\n");
        report
    }
}

} // verus!
