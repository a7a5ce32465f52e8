//! Validation of one named tool invocation against the fixed tool
//! schemas, including the search-before-read ordering rule.  Validation
//! failures abort the run; they are never fed back to the model.

use vstd::prelude::*;
use crate::episodes::{Episode, EpisodeView, clone_episodes, clone_opt_string, opt_view};

verus! {

/// The three capabilities registered with the model.
#[derive(Clone, Copy, PartialEq, Eq, Structural, Debug)]
pub enum ToolName {
    Search,
    ReadContent,
    BuildPlaylist,
}

/// The argument fields a tool schema can require.
#[derive(Clone, Copy, PartialEq, Eq, Structural, Debug)]
pub enum ArgField {
    Query,
    Url,
    Episodes,
    PlaylistName,
}

/// The wire name of each tool.
pub open spec fn tool_name_str(t: ToolName) -> Seq<char> {
    match t {
        ToolName::Search => "search"@,
        ToolName::ReadContent => "read-content"@,
        ToolName::BuildPlaylist => "build-playlist"@,
    }
}

/// Returns the wire name of a tool.
pub fn tool_name_of(t: ToolName) -> (r: &'static str)
    ensures
        r@ == tool_name_str(t),
{
    match t {
        ToolName::Search => "search",
        ToolName::ReadContent => "read-content",
        ToolName::BuildPlaylist => "build-playlist",
    }
}

/// `name` is one of the three registered tool names.
pub open spec fn tool_known(name: Seq<char>) -> bool {
    ||| name == tool_name_str(ToolName::Search)
    ||| name == tool_name_str(ToolName::ReadContent)
    ||| name == tool_name_str(ToolName::BuildPlaylist)
}

/// The raw arguments of a tool call as the model supplied them, already
/// reduced to the fields any known schema mentions.  A field holds `None`
/// both when it was absent and when it had the wrong type.
#[derive(Debug)]
pub struct RawArgs {
    pub query: Option<String>,
    pub url: Option<String>,
    pub episodes: Option<Vec<Episode>>,
    pub playlist_name: Option<String>,
}

/// The mathematical value of [`RawArgs`].
pub ghost struct RawArgsView {
    pub query: Option<Seq<char>>,
    pub url: Option<Seq<char>>,
    pub episodes: Option<Seq<EpisodeView>>,
    pub playlist_name: Option<Seq<char>>,
}

impl View for RawArgs {
    type V = RawArgsView;

    open spec fn view(&self) -> RawArgsView {
        RawArgsView {
            query: opt_view(self.query),
            url: opt_view(self.url),
            episodes: match self.episodes {
                Some(v) => Some(v.deep_view()),
                None => None,
            },
            playlist_name: opt_view(self.playlist_name),
        }
    }
}

/// Copies raw arguments, preserving their mathematical value.
pub fn clone_raw_args(a: &RawArgs) -> (r: RawArgs)
    ensures
        r@ == a@,
{
    RawArgs {
        query: clone_opt_string(&a.query),
        url: clone_opt_string(&a.url),
        episodes: match &a.episodes {
            Some(v) => Some(clone_episodes(v)),
            None => None,
        },
        playlist_name: clone_opt_string(&a.playlist_name),
    }
}

/// A tool invocation whose arguments passed validation.  No open,
/// untyped argument map survives past this point.
#[derive(Debug)]
pub enum ToolInvocation {
    Search { query: String },
    ReadContent { url: String },
    BuildPlaylist { episodes: Vec<Episode>, playlist_name: String },
}

/// The errors that end a run.
#[derive(Debug)]
pub enum RunError {
    /// The model's response had no candidate, or a first part whose
    /// tagged fields were not mutually exclusive.
    ProtocolError,
    /// The model named a tool outside the registered set.
    UnknownTool { name: String },
    /// A required argument of the named tool was absent.
    MissingArgument { tool: ToolName, field: ArgField },
    /// `read-content` was invoked before any successful `search`.
    OrderingViolation,
    /// The conversation ended without an accepted answer.
    IterationLimitExceeded,
}

/// One parameter of a tool schema.
#[derive(Debug)]
pub struct ToolParam {
    pub name: String,
    pub ptype: String,
    pub description: String,
}

/// The schema of one tool as registered with the model.
#[derive(Debug)]
pub struct ToolSchema {
    pub name: String,
    pub description: String,
    pub params: Vec<ToolParam>,
    pub required: Vec<String>,
}

/// The fixed set of three tool schemas, registered once per run:
/// `search(query)`, `read-content(url)` and
/// `build-playlist(episodes, playlist_name)`, every parameter of each
/// required.
pub fn tool_schemas() -> (r: Vec<ToolSchema>)
    ensures
        r@.len() == 3,
        r@[0].name@ == tool_name_str(ToolName::Search),
        r@[0].params@.len() == 1 && r@[0].params@[0].name@ == "query"@ && r@[0].params@[0].ptype@
            == "string"@,
        r@[0].required@.len() == 1 && r@[0].required@[0]@ == "query"@,
        r@[1].name@ == tool_name_str(ToolName::ReadContent),
        r@[1].params@.len() == 1 && r@[1].params@[0].name@ == "url"@ && r@[1].params@[0].ptype@
            == "string"@,
        r@[1].required@.len() == 1 && r@[1].required@[0]@ == "url"@,
        r@[2].name@ == tool_name_str(ToolName::BuildPlaylist),
        r@[2].params@.len() == 2 && r@[2].params@[0].name@ == "episodes"@ && r@[2].params@[0].ptype@
            == "array"@ && r@[2].params@[1].name@ == "playlist_name"@ && r@[2].params@[1].ptype@
            == "string"@,
        r@[2].required@.len() == 2 && r@[2].required@[0]@ == "episodes"@ && r@[2].required@[1]@
            == "playlist_name"@,
        forall|i: int| 0 <= i < 3 ==> (#[trigger] r@[i]).description@.len() > 0,
{
    let mut r: Vec<ToolSchema> = Vec::new();
    let mut search_params: Vec<ToolParam> = Vec::new();
    search_params.push(
        ToolParam {
            name: "query".to_owned(),
            ptype: "string".to_owned(),
            description: "The search query: include the series name and terms such as 'episodes chronological order', 'episode guide' or 'broadcast dates'.".to_owned(),
        },
    );
    let mut search_required: Vec<String> = Vec::new();
    search_required.push("query".to_owned());
    r.push(
        ToolSchema {
            name: "search".to_owned(),
            description: "MANDATORY FIRST TOOL: search the web for TV series information, episodes, chronological order or broadcast dates. Use this immediately when you receive episode data to find authoritative sources.".to_owned(),
            params: search_params,
            required: search_required,
        },
    );
    let mut read_params: Vec<ToolParam> = Vec::new();
    read_params.push(
        ToolParam {
            name: "url".to_owned(),
            ptype: "string".to_owned(),
            description: "The URL of the website to read content from.".to_owned(),
        },
    );
    let mut read_required: Vec<String> = Vec::new();
    read_required.push("url".to_owned());
    r.push(
        ToolSchema {
            name: "read-content".to_owned(),
            description: "MANDATORY SECOND TOOL: read and extract text content from a website URL. Use this immediately after search to get detailed episode information from the discovered sources.".to_owned(),
            params: read_params,
            required: read_required,
        },
    );
    let mut build_params: Vec<ToolParam> = Vec::new();
    build_params.push(
        ToolParam {
            name: "episodes".to_owned(),
            ptype: "array".to_owned(),
            description: "Array of episode objects with title, url, description, duration, channel and topic, deduplicated and sorted in ascending chronological order.".to_owned(),
        },
    );
    build_params.push(
        ToolParam {
            name: "playlist_name".to_owned(),
            ptype: "string".to_owned(),
            description: "A descriptive name for the playlist file, without extension.".to_owned(),
        },
    );
    let mut build_required: Vec<String> = Vec::new();
    build_required.push("episodes".to_owned());
    build_required.push("playlist_name".to_owned());
    r.push(
        ToolSchema {
            name: "build-playlist".to_owned(),
            description: "MANDATORY FINAL TOOL: create and save a playable playlist with the deduplicated episodes sorted in ascending chronological order. Use this only after the other tools have grounded the order. Required to complete the task.".to_owned(),
            params: build_params,
            required: build_required,
        },
    );
    proof {
        reveal_strlit("search");
        reveal_strlit("read-content");
        reveal_strlit("build-playlist");
        reveal_strlit(
            "MANDATORY FIRST TOOL: search the web for TV series information, episodes, chronological order or broadcast dates. Use this immediately when you receive episode data to find authoritative sources.",
        );
        reveal_strlit(
            "MANDATORY SECOND TOOL: read and extract text content from a website URL. Use this immediately after search to get detailed episode information from the discovered sources.",
        );
        reveal_strlit(
            "MANDATORY FINAL TOOL: create and save a playable playlist with the deduplicated episodes sorted in ascending chronological order. Use this only after the other tools have grounded the order. Required to complete the task.",
        );
    }
    r
}

/// Renders a read's outcome as the function-response payload: the
/// extracted text on success, a descriptive failure text otherwise —
/// read failures are fed back to the model, never aborted on.
pub fn read_result_text(outcome: Result<String, crate::extract::ExtractError>, url: &str) -> (r:
    String)
    ensures
        outcome matches Ok(s) ==> r@ == s@,
        outcome matches Err(e) ==> r@ == crate::extract::extract_error_text(e, url@),
{
    match outcome {
        Ok(s) => s,
        Err(e) => crate::extract::describe_extract_error(&e, url),
    }
}

/// Validates one invocation: the tool must be known, `read-content`
/// must follow a successful `search`, and every required argument must
/// be present.
pub fn validate_invocation(name: &str, args: RawArgs, search_succeeded: bool) -> (r: Result<
    ToolInvocation,
    RunError,
>)
    ensures
        !tool_known(name@) ==> (r matches Err(RunError::UnknownTool { name: n }) && n@ == name@),
        name@ == tool_name_str(ToolName::ReadContent) && !search_succeeded ==> r == Err::<
            ToolInvocation,
            RunError,
        >(RunError::OrderingViolation),
        name@ == tool_name_str(ToolName::Search) ==> r == (match args.query {
            Some(q) => Ok::<ToolInvocation, RunError>(ToolInvocation::Search { query: q }),
            None => Err(
                RunError::MissingArgument { tool: ToolName::Search, field: ArgField::Query },
            ),
        }),
        name@ == tool_name_str(ToolName::ReadContent) && search_succeeded ==> r == (
        match args.url {
            Some(u) => Ok::<ToolInvocation, RunError>(ToolInvocation::ReadContent { url: u }),
            None => Err(
                RunError::MissingArgument { tool: ToolName::ReadContent, field: ArgField::Url },
            ),
        }),
        name@ == tool_name_str(ToolName::BuildPlaylist) ==> r == (
        match (args.episodes, args.playlist_name) {
            (Some(e), Some(p)) => Ok::<ToolInvocation, RunError>(
                ToolInvocation::BuildPlaylist { episodes: e, playlist_name: p },
            ),
            (None, _) => Err(
                RunError::MissingArgument {
                    tool: ToolName::BuildPlaylist,
                    field: ArgField::Episodes,
                },
            ),
            (_, None) => Err(
                RunError::MissingArgument {
                    tool: ToolName::BuildPlaylist,
                    field: ArgField::PlaylistName,
                },
            ),
        }),
{
    proof {
        reveal_strlit("search");
        reveal_strlit("read-content");
        reveal_strlit("build-playlist");
        assert("search"@.len() == 6);
        assert("read-content"@.len() == 12);
        assert("build-playlist"@.len() == 14);
    }
    if crate::text::str_eq(name, "read-content") && !search_succeeded {
        return Err(RunError::OrderingViolation);
    }
    if crate::text::str_eq(name, "search") {
        match args.query {
            Some(q) => Ok(ToolInvocation::Search { query: q }),
            None => Err(RunError::MissingArgument { tool: ToolName::Search, field: ArgField::Query }),
        }
    } else if crate::text::str_eq(name, "read-content") {
        match args.url {
            Some(u) => Ok(ToolInvocation::ReadContent { url: u }),
            None => Err(RunError::MissingArgument { tool: ToolName::ReadContent, field: ArgField::Url }),
        }
    } else if crate::text::str_eq(name, "build-playlist") {
        match args.episodes {
            Some(e) => match args.playlist_name {
                Some(p) => Ok(ToolInvocation::BuildPlaylist { episodes: e, playlist_name: p }),
                None => Err(
                    RunError::MissingArgument {
                        tool: ToolName::BuildPlaylist,
                        field: ArgField::PlaylistName,
                    },
                ),
            },
            None => Err(
                RunError::MissingArgument {
                    tool: ToolName::BuildPlaylist,
                    field: ArgField::Episodes,
                },
            ),
        }
    } else {
        Err(RunError::UnknownTool { name: name.to_owned() })
    }
}

} // verus!
