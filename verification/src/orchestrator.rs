//! The bounded multi-turn conversation engine.  It owns the per-run
//! state, interprets one model response at a time, enforces the
//! mandatory workflow (search before any analysis, a completion marker
//! before acceptance), and terminates after a fixed number of
//! iterations.
//!
//! The engine is a state machine: the caller performs the network
//! exchange with the model, hands each parsed response to [`advance`],
//! carries out the returned action (run a tool, send a corrective turn)
//! and records tool results with [`record_tool_result`].  Only the first
//! part of a response's first candidate is consulted; trailing parts are
//! deliberately ignored.

use vstd::prelude::*;
use crate::dispatch::{
    ArgField, RawArgs, RunError, ToolInvocation, ToolName, clone_raw_args, tool_known,
    tool_name_str, validate_invocation,
};
use crate::episodes::{Episode, capped_episodes_json};

verus! {

/// Who produced a turn.
#[derive(Clone, Copy, PartialEq, Eq, Structural, Debug)]
pub enum Role {
    User,
    Model,
}

/// One content part of a conversation turn.
#[derive(Debug)]
pub enum Part {
    Text { text: String },
    FunctionCall { name: String, args: RawArgs },
    FunctionResponse { name: String, response: String },
}

/// One conversation turn.
#[derive(Debug)]
pub struct Turn {
    pub role: Role,
    pub parts: Vec<Part>,
}

/// The per-run state owned by the engine: the append-only history, the
/// number of model responses consumed, and whether a `search` call has
/// completed.
#[derive(Debug)]
pub struct RunState {
    pub history: Vec<Turn>,
    pub iteration: u64,
    pub search_succeeded: bool,
}

/// One raw tool call as decoded from the wire.
#[derive(Debug)]
pub struct RawCall {
    pub name: String,
    pub args: RawArgs,
}

/// One raw response part: the tagged fields are mutually exclusive on a
/// well-formed response.
#[derive(Debug)]
pub struct RawPart {
    pub text: Option<String>,
    pub call: Option<RawCall>,
}

/// One response candidate.
#[derive(Debug)]
pub struct Candidate {
    pub parts: Vec<RawPart>,
}

/// A parsed model response.
#[derive(Debug)]
pub struct LlmResponse {
    pub candidates: Vec<Candidate>,
}

/// What the caller must do after one step.
#[derive(Debug)]
pub enum StepOutcome {
    /// Execute the validated invocation and feed the result back through
    /// [`record_tool_result`].
    ToolRequest { invocation: ToolInvocation },
    /// A corrective user turn was appended; send the history again.
    Corrective,
    /// The model's text was accepted as the final answer.
    Accepted { text: String },
    /// The run is over with this error.
    Failed { error: RunError },
}

/// The iteration ceiling: no run consumes more model responses.
pub const MAX_ITERATIONS: u64 = 8;

/// Through this many iterations a plain text answer must reference the
/// completion marker to be accepted.
pub const EARLY_NUDGE_LIMIT: u64 = 4;

/// The role a well-formed history holds at index `i`.
pub open spec fn role_at(i: int) -> Role {
    if i % 2 == 0 {
        Role::User
    } else {
        Role::Model
    }
}

/// The tool name carried by a function-call part.
pub open spec fn part_call_name(p: Part) -> Seq<char> {
    match p {
        Part::FunctionCall { name, .. } => name@,
        _ => Seq::empty(),
    }
}

/// The tool name carried by a function-response part.
pub open spec fn part_resp_name(p: Part) -> Seq<char> {
    match p {
        Part::FunctionResponse { name, .. } => name@,
        _ => Seq::empty(),
    }
}

/// The function response in turn `i`, if any, comes from the user and
/// answers the immediately preceding function call, naming the same
/// tool.
pub open spec fn resp_pairing_at(h: Seq<Turn>, i: int) -> bool {
    h[i].parts@[0] is FunctionResponse ==> h[i].role == Role::User && 0 < i && h[i
        - 1].parts@[0] is FunctionCall && part_resp_name(h[i].parts@[0]) == part_call_name(
        h[i - 1].parts@[0],
    )
}

/// The function call in turn `i`, if any and unless it is the last
/// turn, is answered by the next turn's function response naming the
/// same tool.
pub open spec fn call_answered_at(h: Seq<Turn>, i: int) -> bool {
    i < h.len() - 1 && h[i].parts@[0] is FunctionCall ==> h[i
        + 1].parts@[0] is FunctionResponse && part_resp_name(h[i + 1].parts@[0]) == part_call_name(
        h[i].parts@[0],
    )
}

/// Well-formedness of a conversation history: every turn holds exactly
/// one part, roles alternate `user, model, user, …`, only the model
/// calls tools, and every function call is immediately answered by a
/// function response naming the same tool.
pub open spec fn history_wf(h: Seq<Turn>) -> bool {
    &&& forall|i: int| 0 <= i < h.len() ==> (#[trigger] h[i]).parts@.len() == 1
    &&& forall|i: int| 0 <= i < h.len() ==> (#[trigger] h[i]).role == role_at(i)
    &&& forall|i: int|
        0 <= i < h.len() && (#[trigger] h[i]).parts@[0] is FunctionCall ==> h[i].role == Role::Model
    &&& forall|i: int| 0 <= i < h.len() ==> #[trigger] resp_pairing_at(h, i)
    &&& forall|i: int| 0 <= i < h.len() ==> #[trigger] call_answered_at(h, i)
}

/// Well-formedness of the run state.
pub open spec fn run_wf(s: RunState) -> bool {
    &&& history_wf(s.history@)
    &&& s.history@.len() >= 1
    &&& s.iteration <= MAX_ITERATIONS
}

/// The history ends with a user turn, so a model response is due.
pub open spec fn awaiting_model(h: Seq<Turn>) -> bool {
    h.len() % 2 == 1
}

/// The history ends with an unanswered function call, so a tool result
/// is due.
pub open spec fn awaiting_tool_result(h: Seq<Turn>) -> bool {
    h.len() > 0 && h.len() % 2 == 0 && h[h.len() - 1].parts@[0] is FunctionCall
}

/// The first part of the first candidate, if any.
pub open spec fn first_part(resp: LlmResponse) -> Option<RawPart> {
    if resp.candidates@.len() == 0 {
        None
    } else if resp.candidates@[0].parts@.len() == 0 {
        None
    } else {
        Some(resp.candidates@[0].parts@[0])
    }
}

/// The part's tagged fields are mutually exclusive.
pub open spec fn part_shape_ok(p: RawPart) -> bool {
    (p.text is Some && p.call is None) || (p.text is None && p.call is Some)
}

/// The response carries a well-shaped first part.
pub open spec fn response_decodes(resp: LlmResponse) -> bool {
    first_part(resp) is Some && part_shape_ok(first_part(resp)->0)
}

/// The response's first part is a tool call.
pub open spec fn response_is_call(resp: LlmResponse) -> bool {
    response_decodes(resp) && first_part(resp)->0.call is Some
}

/// The response's first part is plain text.
pub open spec fn response_is_text(resp: LlmResponse) -> bool {
    response_decodes(resp) && first_part(resp)->0.text is Some
}

/// The call carried by the response's first part.
pub open spec fn call_of(resp: LlmResponse) -> RawCall
    recommends
        response_is_call(resp),
{
    first_part(resp)->0.call->0
}

/// The text carried by the response's first part.
pub open spec fn text_of(resp: LlmResponse) -> Seq<char>
    recommends
        response_is_text(resp),
{
    first_part(resp)->0.text->0@
}

/// Dispatch validation rejects the call.
pub open spec fn call_rejected(c: RawCall, searched: bool) -> bool {
    ||| !tool_known(c.name@)
    ||| (c.name@ == tool_name_str(ToolName::ReadContent) && !searched)
    ||| (c.name@ == tool_name_str(ToolName::Search) && c.args.query is None)
    ||| (c.name@ == tool_name_str(ToolName::ReadContent) && c.args.url is None)
    ||| (c.name@ == tool_name_str(ToolName::BuildPlaylist) && (c.args.episodes is None
        || c.args.playlist_name is None))
}

/// The error dispatch validation produces for a rejected call.
pub open spec fn rejection_error(e: RunError, c: RawCall, searched: bool) -> bool {
    if !tool_known(c.name@) {
        e matches RunError::UnknownTool { name } && name@ == c.name@
    } else if c.name@ == tool_name_str(ToolName::ReadContent) && !searched {
        e == RunError::OrderingViolation
    } else if c.name@ == tool_name_str(ToolName::Search) {
        e == RunError::MissingArgument { tool: ToolName::Search, field: ArgField::Query }
    } else if c.name@ == tool_name_str(ToolName::ReadContent) {
        e == RunError::MissingArgument { tool: ToolName::ReadContent, field: ArgField::Url }
    } else if c.args.episodes is None {
        e == RunError::MissingArgument { tool: ToolName::BuildPlaylist, field: ArgField::Episodes }
    } else {
        e == RunError::MissingArgument {
            tool: ToolName::BuildPlaylist,
            field: ArgField::PlaylistName,
        }
    }
}

/// The invocation faithfully carries the call's validated arguments.
pub open spec fn invocation_matches(inv: ToolInvocation, c: RawCall) -> bool {
    match inv {
        ToolInvocation::Search { query } => c.name@ == tool_name_str(ToolName::Search)
            && c.args.query is Some && query@ == c.args.query->0@,
        ToolInvocation::ReadContent { url } => c.name@ == tool_name_str(ToolName::ReadContent)
            && c.args.url is Some && url@ == c.args.url->0@,
        ToolInvocation::BuildPlaylist { episodes, playlist_name } => c.name@ == tool_name_str(
            ToolName::BuildPlaylist,
        ) && c.args.episodes is Some && episodes.deep_view() == c.args.episodes->0.deep_view()
            && c.args.playlist_name is Some && playlist_name@ == c.args.playlist_name->0@,
    }
}

/// The turn records this function call.
pub open spec fn is_call_turn_for(t: Turn, c: RawCall) -> bool {
    &&& t.role == Role::Model
    &&& t.parts@.len() == 1
    &&& (t.parts@[0] matches Part::FunctionCall { name, args } && name@ == c.name@ && args@
        == c.args@)
}

/// The turn is a single text part from `role` holding `text`.
pub open spec fn is_text_turn(t: Turn, role: Role, text: Seq<char>) -> bool {
    &&& t.role == role
    &&& t.parts@.len() == 1
    &&& (t.parts@[0] matches Part::Text { text: x } && x@ == text)
}

/// The turn records this tool's response payload.
pub open spec fn is_response_turn(t: Turn, name: Seq<char>, response: Seq<char>) -> bool {
    &&& t.role == Role::User
    &&& t.parts@.len() == 1
    &&& (t.parts@[0] matches Part::FunctionResponse { name: n, response: r } && n@ == name && r@
        == response)
}

/// The corrective turn sent when the model answers in text before any
/// successful search.
pub open spec fn search_corrective() -> Seq<char> {
    "STOP! You MUST use the search tool first. Do not provide any analysis or sorting until you have searched for chronological information. Call search now with a query about the series episode order."@
}

/// The softer corrective turn sent when an early text answer lacks the
/// completion marker.
pub open spec fn workflow_corrective() -> Seq<char> {
    "Continue following the mandatory workflow: Search -> Read Sources -> Deduplicate -> Sort -> Create Playlist. What is your next step?"@
}

/// The accepted-answer marker an early text response must mention.
pub open spec fn completion_marker() -> Seq<char> {
    "playlist"@
}

/// The model's text is accepted at iteration `iter` (1-based) with
/// search state `searched`.
pub open spec fn text_accepted(t: Seq<char>, iter: u64, searched: bool) -> bool {
    &&& !(iter == 1 && !searched)
    &&& (iter > EARLY_NUDGE_LIMIT || crate::text::contains_seq(
        crate::text::lower_of(t),
        completion_marker(),
    ))
}

/// The prompt seeding the first turn: the system prompt followed by the
/// serialised, length-capped episode list.
pub open spec fn initial_prompt(
    system_prompt: Seq<char>,
    eps: Seq<crate::episodes::EpisodeView>,
) -> Seq<char> {
    system_prompt + "\n\nPlease analyze and chronologically sort these German TV episodes:\n\n"@
        + capped_episodes_json(eps)
}

/// Creates the state for one run, seeded with the system prompt and the
/// serialised episode candidates.
pub fn start_run(system_prompt: &str, episodes: &Vec<Episode>) -> (s: RunState)
    ensures
        run_wf(s),
        s.iteration == 0,
        !s.search_succeeded,
        s.history@.len() == 1,
        is_text_turn(s.history@[0], Role::User, initial_prompt(system_prompt@, episodes.deep_view())),
        awaiting_model(s.history@),
{
    let mut text = String::new();
    text.append(system_prompt);
    text.append("\n\nPlease analyze and chronologically sort these German TV episodes:\n\n");
    let json = crate::episodes::format_episodes(episodes);
    text.append(json.as_str());
    proof {
        assert(text@ =~= initial_prompt(system_prompt@, episodes.deep_view()));
    }
    let turn = Turn { role: Role::User, parts: vec![Part::Text { text }] };
    let mut history: Vec<Turn> = Vec::new();
    history.push(turn);
    RunState { history, iteration: 0, search_succeeded: false }
}

/// Consumes one model response and advances the run.
///
/// At the iteration ceiling the step fails with
/// `IterationLimitExceeded` and changes nothing.  Otherwise the
/// response's first part alone decides: a malformed part fails the run
/// with `ProtocolError`; a tool call is validated (a rejected call
/// fails the run, an accepted one is appended to the history and handed
/// back for execution); a text answer is either rejected with a
/// corrective user turn, per the iteration policy, or accepted.
pub fn advance(state: &mut RunState, response: &LlmResponse) -> (outcome: StepOutcome)
    requires
        run_wf(*old(state)),
        awaiting_model(old(state).history@),
    ensures
        run_wf(*final(state)),
        final(state).search_succeeded == old(state).search_succeeded,
        old(state).iteration >= MAX_ITERATIONS ==> *final(state) == *old(state) && outcome
            == (StepOutcome::Failed { error: RunError::IterationLimitExceeded }),
        old(state).iteration < MAX_ITERATIONS ==> final(state).iteration == old(state).iteration
            + 1,
        old(state).iteration < MAX_ITERATIONS && !response_decodes(*response)
            ==> final(state).history == old(state).history
                && outcome == (StepOutcome::Failed { error: RunError::ProtocolError }),
        old(state).iteration < MAX_ITERATIONS && response_is_call(*response) && call_rejected(
            call_of(*response),
            old(state).search_succeeded,
        ) ==> final(state).history == old(state).history && (outcome matches StepOutcome::Failed {
            error,
        } && rejection_error(error, call_of(*response), old(state).search_succeeded)),
        old(state).iteration < MAX_ITERATIONS && response_is_call(*response) && !call_rejected(
            call_of(*response),
            old(state).search_succeeded,
        ) ==> {
            &&& (outcome matches StepOutcome::ToolRequest { invocation } && invocation_matches(
                invocation,
                call_of(*response),
            ))
            &&& final(state).history@.len() == old(state).history@.len() + 1
            &&& final(state).history@.take(old(state).history@.len() as int) == old(
                state,
            ).history@
            &&& is_call_turn_for(final(state).history@.last(), call_of(*response))
            &&& awaiting_tool_result(final(state).history@)
        },
        old(state).iteration < MAX_ITERATIONS && response_is_text(*response) && text_accepted(
            text_of(*response),
            (old(state).iteration + 1) as u64,
            old(state).search_succeeded,
        ) ==> final(state).history == old(state).history && (outcome
            matches StepOutcome::Accepted { text } && text@ == text_of(*response)),
        old(state).iteration < MAX_ITERATIONS && response_is_text(*response) && !text_accepted(
            text_of(*response),
            (old(state).iteration + 1) as u64,
            old(state).search_succeeded,
        ) ==> {
            &&& outcome == StepOutcome::Corrective
            &&& final(state).history@.len() == old(state).history@.len() + 2
            &&& final(state).history@.take(old(state).history@.len() as int) == old(
                state,
            ).history@
            &&& is_text_turn(
                final(state).history@[final(state).history@.len() - 2],
                Role::Model,
                text_of(*response),
            )
            &&& is_text_turn(
                final(state).history@.last(),
                Role::User,
                if old(state).iteration + 1 == 1 && !old(state).search_succeeded {
                    search_corrective()
                } else {
                    workflow_corrective()
                },
            )
            &&& awaiting_model(final(state).history@)
        },
{
    if state.iteration >= MAX_ITERATIONS {
        return StepOutcome::Failed { error: RunError::IterationLimitExceeded };
    }
    state.iteration = state.iteration + 1;
    if response.candidates.len() == 0 {
        return StepOutcome::Failed { error: RunError::ProtocolError };
    }
    let cand = &response.candidates[0];
    if cand.parts.len() == 0 {
        return StepOutcome::Failed { error: RunError::ProtocolError };
    }
    let part = &cand.parts[0];
    match (&part.text, &part.call) {
        (Some(_), Some(_)) => StepOutcome::Failed { error: RunError::ProtocolError },
        (None, None) => StepOutcome::Failed { error: RunError::ProtocolError },
        (None, Some(call)) => {
            let args_for_validate = clone_raw_args(&call.args);
            match validate_invocation(
                call.name.as_str(),
                args_for_validate,
                state.search_succeeded,
            ) {
                Err(e) => StepOutcome::Failed { error: e },
                Ok(invocation) => {
                    let turn_args = clone_raw_args(&call.args);
                    let turn = Turn {
                        role: Role::Model,
                        parts: vec![
                            Part::FunctionCall { name: call.name.clone(), args: turn_args },
                        ],
                    };
                    let ghost pre = state.history@;
                    state.history.push(turn);
                    proof {
                        lemma_push_model_turn(pre, state.history@);
                        assert(pre.push(state.history@.last()).take(pre.len() as int) =~= pre);
                    }
                    StepOutcome::ToolRequest { invocation }
                },
            }
        },
        (Some(text), None) => {
            let reject_for_search = state.iteration == 1 && !state.search_succeeded;
            let mut reject_for_marker = false;
            if !reject_for_search && state.iteration <= EARLY_NUDGE_LIMIT {
                let lowered = crate::text::lowercase(text.as_str());
                let lowered_chars = crate::text::chars_of(lowered.as_str());
                let marker = crate::text::chars_of("playlist");
                reject_for_marker = !crate::text::contains_chars(&lowered_chars, &marker);
            }
            if reject_for_search || reject_for_marker {
                let model_turn = Turn { role: Role::Model, parts: vec![Part::Text { text: text.clone() }] };
                let corrective = if reject_for_search {
                    "STOP! You MUST use the search tool first. Do not provide any analysis or sorting until you have searched for chronological information. Call search now with a query about the series episode order."
                } else {
                    "Continue following the mandatory workflow: Search -> Read Sources -> Deduplicate -> Sort -> Create Playlist. What is your next step?"
                };
                let mut corrective_text = String::new();
                corrective_text.append(corrective);
                let user_turn = Turn {
                    role: Role::User,
                    parts: vec![Part::Text { text: corrective_text }],
                };
                let ghost pre = state.history@;
                state.history.push(model_turn);
                proof {
                    lemma_push_model_turn(pre, state.history@);
                }
                let ghost mid = state.history@;
                state.history.push(user_turn);
                proof {
                    lemma_push_user_text_turn(mid, state.history@);
                    assert(state.history@.take(pre.len() as int) =~= pre);
                }
                StepOutcome::Corrective
            } else {
                StepOutcome::Accepted { text: text.clone() }
            }
        },
    }
}

/// Pushing a model turn that is not a function response onto a
/// well-formed history awaiting the model keeps it well-formed.
#[verifier::rlimit(50)]
proof fn lemma_push_model_turn(pre: Seq<Turn>, post: Seq<Turn>)
    requires
        history_wf(pre),
        pre.len() % 2 == 1,
        post == pre.push(post.last()),
        post.len() == pre.len() + 1,
        post.last().role == Role::Model,
        post.last().parts@.len() == 1,
        !(post.last().parts@[0] is FunctionResponse),
    ensures
        history_wf(post),
{
    assert forall|i: int| 0 <= i < post.len() implies (#[trigger] post[i]).parts@.len() == 1 by {
        if i < pre.len() {
            assert(post[i] == pre[i]);
        }
    }
    assert forall|i: int| 0 <= i < post.len() implies (#[trigger] post[i]).role == role_at(i) by {
        if i < pre.len() {
            assert(post[i] == pre[i]);
        }
    }
    assert forall|i: int|
        0 <= i < post.len() && (#[trigger] post[i]).parts@[0] is FunctionCall implies post[i].role
        == Role::Model by {
        if i < pre.len() {
            assert(post[i] == pre[i]);
        }
    }
    assert forall|i: int| 0 <= i < post.len() implies #[trigger] resp_pairing_at(post, i) by {
        if i < pre.len() {
            assert(resp_pairing_at(pre, i));
            assert(post[i] == pre[i]);
            if 0 < i {
                assert(post[i - 1] == pre[i - 1]);
            }
        } else {
            assert(post[i] == post.last());
            assert(post[i - 1] == pre[i - 1]);
        }
    }
    assert forall|i: int| 0 <= i < post.len() implies #[trigger] call_answered_at(post, i) by {
        if i < pre.len() - 1 {
            assert(call_answered_at(pre, i));
            assert(post[i] == pre[i]);
            assert(post[i + 1] == pre[i + 1]);
        } else if i == pre.len() - 1 {
            assert(post[i] == pre[i]);
            assert(post[i + 1] == post.last());
            assert(pre[i].role == role_at(i));
        } else {
            assert(post[i] == post.last());
        }
    }
}

/// Pushing a user text turn onto a well-formed history that ends with a
/// model turn carrying no function call keeps it well-formed.
#[verifier::rlimit(50)]
proof fn lemma_push_user_text_turn(pre: Seq<Turn>, post: Seq<Turn>)
    requires
        history_wf(pre),
        pre.len() % 2 == 0,
        pre.len() > 0,
        !(pre.last().parts@[0] is FunctionCall),
        post == pre.push(post.last()),
        post.len() == pre.len() + 1,
        post.last().role == Role::User,
        post.last().parts@.len() == 1,
        post.last().parts@[0] is Text,
    ensures
        history_wf(post),
{
    assert forall|i: int| 0 <= i < post.len() implies (#[trigger] post[i]).parts@.len() == 1 by {
        if i < pre.len() {
            assert(post[i] == pre[i]);
        }
    }
    assert forall|i: int| 0 <= i < post.len() implies (#[trigger] post[i]).role == role_at(i) by {
        if i < pre.len() {
            assert(post[i] == pre[i]);
        }
    }
    assert forall|i: int|
        0 <= i < post.len() && (#[trigger] post[i]).parts@[0] is FunctionCall implies post[i].role
        == Role::Model by {
        if i < pre.len() {
            assert(post[i] == pre[i]);
        }
    }
    assert forall|i: int| 0 <= i < post.len() implies #[trigger] resp_pairing_at(post, i) by {
        if i < pre.len() {
            assert(resp_pairing_at(pre, i));
            assert(post[i] == pre[i]);
            if 0 < i {
                assert(post[i - 1] == pre[i - 1]);
            }
        } else {
            assert(post[i] == post.last());
            assert(post[i - 1] == pre[i - 1]);
        }
    }
    assert forall|i: int| 0 <= i < post.len() implies #[trigger] call_answered_at(post, i) by {
        if i < pre.len() - 1 {
            assert(call_answered_at(pre, i));
            assert(post[i] == pre[i]);
            assert(post[i + 1] == pre[i + 1]);
        } else if i == pre.len() - 1 {
            assert(post[i] == pre[i]);
            assert(post[i + 1] == post.last());
        } else {
            assert(post[i] == post.last());
        }
    }
}

/// Pushing the matching function-response turn onto a well-formed
/// history that ends with an unanswered call keeps it well-formed.
#[verifier::rlimit(50)]
proof fn lemma_push_response_turn(pre: Seq<Turn>, post: Seq<Turn>)
    requires
        history_wf(pre),
        awaiting_tool_result(pre),
        post == pre.push(post.last()),
        post.len() == pre.len() + 1,
        post.last().role == Role::User,
        post.last().parts@.len() == 1,
        post.last().parts@[0] is FunctionResponse,
        part_resp_name(post.last().parts@[0]) == part_call_name(pre.last().parts@[0]),
    ensures
        history_wf(post),
{
    assert forall|i: int| 0 <= i < post.len() implies (#[trigger] post[i]).parts@.len() == 1 by {
        if i < pre.len() {
            assert(post[i] == pre[i]);
        }
    }
    assert forall|i: int| 0 <= i < post.len() implies (#[trigger] post[i]).role == role_at(i) by {
        if i < pre.len() {
            assert(post[i] == pre[i]);
        }
    }
    assert forall|i: int|
        0 <= i < post.len() && (#[trigger] post[i]).parts@[0] is FunctionCall implies post[i].role
        == Role::Model by {
        if i < pre.len() {
            assert(post[i] == pre[i]);
        }
    }
    assert forall|i: int| 0 <= i < post.len() implies #[trigger] resp_pairing_at(post, i) by {
        if i < pre.len() {
            assert(resp_pairing_at(pre, i));
            assert(post[i] == pre[i]);
            if 0 < i {
                assert(post[i - 1] == pre[i - 1]);
            }
        } else {
            assert(post[i] == post.last());
            assert(post[i - 1] == pre[i - 1]);
        }
    }
    assert forall|i: int| 0 <= i < post.len() implies #[trigger] call_answered_at(post, i) by {
        if i < pre.len() - 1 {
            assert(call_answered_at(pre, i));
            assert(post[i] == pre[i]);
            assert(post[i + 1] == pre[i + 1]);
        } else if i == pre.len() - 1 {
            assert(post[i] == pre[i]);
            assert(post[i + 1] == post.last());
        } else {
            assert(post[i] == post.last());
        }
    }
}

/// Appends the function-response turn for the tool the model just
/// called, and marks the search as succeeded once a `search` call has
/// completed.
pub fn record_tool_result(state: &mut RunState, name: &str, result: &str)
    requires
        run_wf(*old(state)),
        awaiting_tool_result(old(state).history@),
        part_call_name(old(state).history@.last().parts@[0]) == name@,
    ensures
        run_wf(*final(state)),
        final(state).iteration == old(state).iteration,
        final(state).history@.len() == old(state).history@.len() + 1,
        final(state).history@.take(old(state).history@.len() as int) == old(state).history@,
        is_response_turn(final(state).history@.last(), name@, result@),
        final(state).search_succeeded == (old(state).search_succeeded || name@ == tool_name_str(
            ToolName::Search,
        )),
        awaiting_model(final(state).history@),
{
    let turn = Turn {
        role: Role::User,
        parts: vec![
            Part::FunctionResponse { name: name.to_owned(), response: result.to_owned() },
        ],
    };
    let ghost pre = state.history@;
    state.history.push(turn);
    proof {
        lemma_push_response_turn(pre, state.history@);
        assert(state.history@.take(pre.len() as int) =~= pre);
    }
    if crate::text::str_eq(name, "search") {
        state.search_succeeded = true;
    }
}

/// Law: in every well-formed history the roles alternate
/// `user, model, user, …`, and every function-call turn is immediately
/// followed by a function-response turn naming the same tool.
pub proof fn lemma_history_protocol(h: Seq<Turn>)
    requires
        history_wf(h),
    ensures
        forall|i: int| 0 <= i < h.len() ==> (#[trigger] h[i]).role == (if i % 2 == 0 {
            Role::User
        } else {
            Role::Model
        }),
        forall|i: int| 0 <= i < h.len() ==> #[trigger] call_answered_at(h, i),
        forall|i: int| 0 <= i < h.len() ==> #[trigger] resp_pairing_at(h, i),
{
}

/// Law: a `read-content` call made before any successful `search` is
/// rejected, and the only error dispatch produces for it is
/// `OrderingViolation` — by [`advance`]'s contract the run then fails
/// with that error rather than crashing or carrying on.
pub proof fn lemma_read_requires_search(c: RawCall)
    requires
        c.name@ == tool_name_str(ToolName::ReadContent),
    ensures
        call_rejected(c, false),
        forall|e: RunError| rejection_error(e, c, false) ==> e == RunError::OrderingViolation,
{
}

/// Law: a run never observes more than [`MAX_ITERATIONS`] iterations,
/// and a step taken at the ceiling fails with `IterationLimitExceeded`
/// rather than looping on.  The latter is stated by [`advance`]'s
/// contract; this lemma records the bound itself.
pub proof fn lemma_iteration_bounded(s: RunState)
    requires
        run_wf(s),
    ensures
        s.iteration <= MAX_ITERATIONS,
{
}

} // verus!
