//! The configuration model: which half of a monitor a window goes to, one
//! application entry, the whole configuration, the case-insensitive reading
//! of side values, the validation that turns raw file entries into a
//! configuration, and the built-in default configuration.

use vstd::prelude::*;
use vstd::string::StringExecFns;
use crate::strings::{lower_of, lowercase, str_eq};

verus! {

/// Which half of a monitor's work area a window should occupy.
#[derive(Clone, Copy, Debug, PartialEq, Eq, Structural)]
pub enum Side {
    Left,
    Right,
}

/// One configured application: a display name, the 1-based display slot its
/// window goes to, the half of that display, and the command that starts it.
#[derive(Clone, Debug)]
pub struct Application {
    pub name: String,
    pub display: u32,
    pub side: Side,
    pub executable: String,
}

/// The whole configuration: the applications to launch, in listed order.
#[derive(Clone, Debug)]
pub struct Config {
    pub applications: Vec<Application>,
}

/// What an already-lowercased side value denotes: `"left"` and `"right"`,
/// nothing else.
pub open spec fn side_of_lowered_spec(s: Seq<char>) -> Option<Side> {
    if s == "left"@ {
        Some(Side::Left)
    } else if s == "right"@ {
        Some(Side::Right)
    } else {
        None
    }
}

/// What a raw side value parses to: its lowercase form must read `"left"`
/// or `"right"`.
pub open spec fn parse_side_spec(s: Seq<char>) -> Option<Side> {
    side_of_lowered_spec(lower_of(s))
}

/// Reads an already-lowercased side value.
pub fn side_of_lowered(s: &str) -> (r: Option<Side>)
    ensures
        r == side_of_lowered_spec(s@),
{
    if str_eq(s, "left") {
        Some(Side::Left)
    } else if str_eq(s, "right") {
        Some(Side::Right)
    } else {
        None
    }
}

/// Parses a side value case-insensitively. Any value other than the two
/// sides is a hard configuration error, reported with the offending value;
/// the error comes at load time, never deferred to placement time.
pub fn parse_side(s: &str) -> (r: Result<Side, String>)
    ensures
        match r {
            Ok(side) => parse_side_spec(s@) == Some(side),
            Err(m) => parse_side_spec(s@) is None && m@ == "Invalid side: "@ + s@,
        },
{
    let lowered = lowercase(s);
    match side_of_lowered(lowered.as_str()) {
        Some(side) => Ok(side),
        None => {
            let mut m = "Invalid side: ".to_owned();
            m.append(s);
            Err(m)
        },
    }
}

/// One application entry as the configuration file carries it, before its
/// side value has been checked.
#[derive(Clone, Debug)]
pub struct RawApplication {
    pub name: String,
    pub display: u32,
    pub side: String,
    pub executable: String,
}

/// A raw entry whose side value is one of the two sides.
pub open spec fn raw_side_ok(r: RawApplication) -> bool {
    parse_side_spec(r.side@) is Some
}

/// The application that a raw entry denotes: same name, display slot and
/// executable, with the side value parsed.
pub open spec fn application_of_raw(a: Application, r: RawApplication) -> bool {
    &&& a.name@ == r.name@
    &&& a.display == r.display
    &&& Some(a.side) == parse_side_spec(r.side@)
    &&& a.executable@ == r.executable@
}

/// Validates raw file entries into a configuration. Every entry's side
/// value must parse; the first entry whose side value does not aborts the
/// load with that entry's error, and no launching ever starts from a
/// configuration that failed here.
pub fn build_config(raw: &Vec<RawApplication>) -> (r: Result<Config, String>)
    ensures
        match r {
            Ok(c) => {
                &&& c.applications@.len() == raw@.len()
                &&& forall|i: int|
                    0 <= i < raw@.len() ==> application_of_raw(
                        #[trigger] c.applications@[i],
                        raw@[i],
                    )
            },
            Err(m) => exists|i: int|
                {
                    &&& 0 <= i < raw@.len()
                    &&& !raw_side_ok(#[trigger] raw@[i])
                    &&& (forall|j: int| 0 <= j < i ==> raw_side_ok(#[trigger] raw@[j]))
                    &&& m@ == "Invalid side: "@ + raw@[i].side@
                },
        },
{
    let mut applications: Vec<Application> = Vec::new();
    let n = raw.len();
    let mut i: usize = 0;
    while i < n
        invariant
            n == raw@.len(),
            i <= n,
            applications@.len() == i,
            forall|k: int|
                0 <= k < i ==> application_of_raw(#[trigger] applications@[k], raw@[k]),
            forall|k: int| 0 <= k < i ==> raw_side_ok(#[trigger] raw@[k]),
        decreases n - i,
    {
        let entry = &raw[i];
        match parse_side(entry.side.as_str()) {
            Ok(side) => {
                let app = Application {
                    name: entry.name.clone(),
                    display: entry.display,
                    side,
                    executable: entry.executable.clone(),
                };
                applications.push(app);
            },
            Err(m) => {
                return Err(m);
            },
        }
        i += 1;
    }
    Ok(Config { applications })
}

/// The built-in fallback configuration, as the configuration file format
/// writes it.
pub const DEFAULT_CONFIG_CONTENT: &'static str = r#"
applications:
  - name: "Microsoft Teams"
    display: 2
    side: "right"
    executable: "C:\\Program Files\\WindowsApps\\MSTeams_25306.804.4102.7193_x64__8wekyb3d8bbwe\\ms-teams.exe"
  - name: "Outlook"
    display: 2
    side: "left"
    executable: "C:\\Program Files\\WindowsApps\\Microsoft.OutlookForWindows_1.2025.1111.100_x64__8wekyb3d8bbwe\\olk.exe"
  - name: "Slack"
    display: 3
    side: "right"
    executable: "C:\\Program Files\\WindowsApps\\com.tinyspeck.slackdesktop_4.47.65.0_x64__8yrtsj140pw4g\\app\\Slack.exe"
  - name: "Notion"
    display: 3
    side: "left"
    executable: "C:\\Users\\shawo\\AppData\\Local\\Programs\\Notion\\Notion.exe"
"#;

/// The text of the built-in default configuration.
pub fn get_default_config_content() -> (r: &'static str)
    ensures
        r@ == DEFAULT_CONFIG_CONTENT@,
{
    DEFAULT_CONFIG_CONTENT
}

/// An application entry with exactly these four fields.
pub open spec fn application_is(
    a: Application,
    name: Seq<char>,
    display: u32,
    side: Side,
    executable: Seq<char>,
) -> bool {
    &&& a.name@ == name
    &&& a.display == display
    &&& a.side == side
    &&& a.executable@ == executable
}

/// The value the built-in default configuration denotes.
pub open spec fn is_default_config(c: Config) -> bool {
    &&& c.applications@.len() == 4
    &&& application_is(
        c.applications@[0],
        "Microsoft Teams"@,
        2,
        Side::Right,
        "C:\\Program Files\\WindowsApps\\MSTeams_25306.804.4102.7193_x64__8wekyb3d8bbwe\\ms-teams.exe"@,
    )
    &&& application_is(
        c.applications@[1],
        "Outlook"@,
        2,
        Side::Left,
        "C:\\Program Files\\WindowsApps\\Microsoft.OutlookForWindows_1.2025.1111.100_x64__8wekyb3d8bbwe\\olk.exe"@,
    )
    &&& application_is(
        c.applications@[2],
        "Slack"@,
        3,
        Side::Right,
        "C:\\Program Files\\WindowsApps\\com.tinyspeck.slackdesktop_4.47.65.0_x64__8yrtsj140pw4g\\app\\Slack.exe"@,
    )
    &&& application_is(
        c.applications@[3],
        "Notion"@,
        3,
        Side::Left,
        "C:\\Users\\shawo\\AppData\\Local\\Programs\\Notion\\Notion.exe"@,
    )
}

/// The default configuration: the value that loading the built-in content
/// yields. It always loads.
pub fn load_default_config() -> (r: Result<Config, String>)
    ensures
        match r {
            Ok(c) => is_default_config(c),
            Err(_) => false,
        },
{
    let mut applications: Vec<Application> = Vec::new();
    applications.push(
        Application {
            name: "Microsoft Teams".to_owned(),
            display: 2,
            side: Side::Right,
            executable:
                "C:\\Program Files\\WindowsApps\\MSTeams_25306.804.4102.7193_x64__8wekyb3d8bbwe\\ms-teams.exe".to_owned(),
        },
    );
    applications.push(
        Application {
            name: "Outlook".to_owned(),
            display: 2,
            side: Side::Left,
            executable:
                "C:\\Program Files\\WindowsApps\\Microsoft.OutlookForWindows_1.2025.1111.100_x64__8wekyb3d8bbwe\\olk.exe".to_owned(),
        },
    );
    applications.push(
        Application {
            name: "Slack".to_owned(),
            display: 3,
            side: Side::Right,
            executable:
                "C:\\Program Files\\WindowsApps\\com.tinyspeck.slackdesktop_4.47.65.0_x64__8yrtsj140pw4g\\app\\Slack.exe".to_owned(),
        },
    );
    applications.push(
        Application {
            name: "Notion".to_owned(),
            display: 3,
            side: Side::Left,
            executable: "C:\\Users\\shawo\\AppData\\Local\\Programs\\Notion\\Notion.exe".to_owned(),
        },
    );
    Ok(Config { applications })
}

} // verus!
