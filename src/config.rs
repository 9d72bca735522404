//! Settings of a session: where the remote service lives and how many tips
//! an issue holds.

use vstd::prelude::*;

verus! {

/// Settings of a session.
pub struct Config {
    /// Base address of the remote service.
    pub api_url: String,
    /// Project the remote service files issues under.
    pub project_id: String,
    /// Most tips that one issue holds: the selection's capacity.
    pub tips_per_issue: usize,
    /// Subject line pattern, kept for the settings file.
    pub subject_template: String,
}

/// A configuration's fields as values.
pub struct ConfigView {
    pub api_url: Seq<char>,
    pub project_id: Seq<char>,
    pub tips_per_issue: usize,
    pub subject_template: Seq<char>,
}

impl View for Config {
    type V = ConfigView;

    open spec fn view(&self) -> ConfigView {
        ConfigView {
            api_url: self.api_url@,
            project_id: self.project_id@,
            tips_per_issue: self.tips_per_issue,
            subject_template: self.subject_template@,
        }
    }
}

/// The selection's capacity when no setting names one.
pub const DEFAULT_TIPS_PER_ISSUE: usize = 8;

pub fn default_api_url() -> (r: String)
    ensures
        r@ == "https://waitlist.neurabytelabs.com"@,
{
    String::from_str("https://waitlist.neurabytelabs.com")
}

pub fn default_project_id() -> (r: String)
    ensures
        r@ == "claudecodedaily"@,
{
    String::from_str("claudecodedaily")
}

pub fn default_tips_per_issue() -> (r: usize)
    ensures
        r == DEFAULT_TIPS_PER_ISSUE,
{
    DEFAULT_TIPS_PER_ISSUE
}

pub fn default_subject_template() -> (r: String)
    ensures
        r@ == "CC Daily #{issue}: {count} Real Use Cases"@,
{
    String::from_str("CC Daily #{issue}: {count} Real Use Cases")
}

/// The configuration that every default gives.
pub open spec fn default_config() -> ConfigView {
    ConfigView {
        api_url: "https://waitlist.neurabytelabs.com"@,
        project_id: "claudecodedaily"@,
        tips_per_issue: DEFAULT_TIPS_PER_ISSUE,
        subject_template: "CC Daily #{issue}: {count} Real Use Cases"@,
    }
}

impl Default for Config {
    fn default() -> (r: Config)
        ensures
            r@ == default_config(),
    {
        Config {
            api_url: default_api_url(),
            project_id: default_project_id(),
            tips_per_issue: default_tips_per_issue(),
            subject_template: default_subject_template(),
        }
    }
}

/// The address of a remote endpoint: base, `/api/`, project, then `path`.
pub open spec fn endpoint_of(base: Seq<char>, project: Seq<char>, path: Seq<char>) -> Seq<char> {
    base + "/api/"@ + project + path
}

/// The address of the endpoint `path` under `base` and `project`.
pub fn endpoint_url(base: &str, project: &str, path: &str) -> (r: String)
    ensures
        r@ == endpoint_of(base@, project@, path@),
{
    String::from_str(base).concat("/api/").concat(project).concat(path)
}

impl Config {
    /// The address of the endpoint `path` of this configuration's project.
    pub fn api_endpoint(&self, path: &str) -> (r: String)
        ensures
            r@ == endpoint_of(self.api_url@, self.project_id@, path@),
    {
        endpoint_url(self.api_url.as_str(), self.project_id.as_str(), path)
    }
}

} // verus!
