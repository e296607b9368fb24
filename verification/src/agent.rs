use vstd::prelude::*;
use crate::chat::OllamaChat;
use crate::errors::{AppError, ErrorKind};
use crate::json::{obj_get, JsonValue};
use crate::message::{Message, MessageRole};
use crate::settings::{field_is_bool, field_is_str};

verus! {

/// Where the planner stands: switched off, waiting for a goal, refining a
/// generated plan, or stepping through it.
#[derive(Debug, Clone, Copy, PartialEq, Eq, Structural)]
pub enum AgentStatus {
    Disabled,
    Ready,
    Plan,
    Running,
}

/// One step of a plan: a short name, what the step does, and whether it has
/// been carried out.
#[derive(Debug)]
pub struct AgentTask {
    pub name: String,
    pub description: String,
    pub completed: bool,
}

impl AgentTask {
    /// An equal duplicate of the task.
    pub fn duplicate(&self) -> (r: AgentTask)
        ensures
            r == *self,
    {
        AgentTask {
            name: self.name.clone(),
            description: self.description.clone(),
            completed: self.completed,
        }
    }
}

/// The structured plan the model generates: an ordered list of tasks.
#[derive(Debug)]
pub struct AgentPlan {
    pub tasks: Vec<AgentTask>,
}

/// The messages a planning request sends, for schema-constrained
/// generation against the plan's structure.
#[derive(Debug)]
pub struct PlanRequest {
    pub messages: Vec<Message>,
}

/// The system prompt installed when the planner starts.
pub open spec fn spec_agent_system_prompt() -> Seq<char> {
    "You are an AI agent assisting the user in complex tasks. Based on the user request, you will generate a list of tasks and then execute them one by one. After each task you will wait for user confirmation before continuing to the next one. Follow your plan step by step to achieve the final goal. Do not interrupt the user for anything other than confirmation at the end of each step."@
}

/// The system prompt installed when the planner starts.
pub fn agent_system_prompt() -> (r: &'static str)
    ensures
        r@ == spec_agent_system_prompt(),
{
    "You are an AI agent assisting the user in complex tasks. Based on the user request, you will generate a list of tasks and then execute them one by one. After each task you will wait for user confirmation before continuing to the next one. Follow your plan step by step to achieve the final goal. Do not interrupt the user for anything other than confirmation at the end of each step."
}

/// The one-shot instruction that asks the model for a plan.
pub open spec fn spec_plan_generation_prompt() -> Seq<char> {
    "Start by generating a list of tasks to achieve the user request. Each one must be clear and detailed. Output this plan as a JSON object with a key 'tasks' containing an array of task objects. Each task object must have a 'name' and a 'description'. Do not output anything other than the JSON object."@
}

/// The one-shot instruction that asks the model for a plan.
pub fn plan_generation_prompt() -> (r: &'static str)
    ensures
        r@ == spec_plan_generation_prompt(),
{
    "Start by generating a list of tasks to achieve the user request. Each one must be clear and detailed. Output this plan as a JSON object with a key 'tasks' containing an array of task objects. Each task object must have a 'name' and a 'description'. Do not output anything other than the JSON object."
}

/// Whether the JSON object `v` describes exactly the task `t`.
pub open spec fn task_matches_json(t: AgentTask, v: JsonValue) -> bool {
    &&& field_is_str(v, "name"@, t.name@)
    &&& field_is_str(v, "description"@, t.description@)
    &&& field_is_bool(v, "completed"@, t.completed)
}

/// Whether a JSON value has the shape of one task.
pub open spec fn task_json_wf(v: JsonValue) -> bool {
    exists|t: AgentTask| task_matches_json(t, v)
}

/// Whether a JSON value has the shape of a whole plan: an object whose
/// `tasks` key holds an array of well-formed tasks.
pub open spec fn plan_json_wf(v: JsonValue) -> bool {
    &&& v is Obj
    &&& match obj_get(v->Obj_0@, "tasks"@) {
        Some(JsonValue::Arr(items)) => forall|i: int|
            0 <= i < items@.len() ==> task_json_wf(#[trigger] items@[i]),
        _ => false,
    }
}

/// Whether a plan is exactly what a JSON value describes, task by task.
pub open spec fn plan_matches_json(p: AgentPlan, v: JsonValue) -> bool {
    &&& v is Obj
    &&& match obj_get(v->Obj_0@, "tasks"@) {
        Some(JsonValue::Arr(items)) => {
            &&& p.tasks@.len() == items@.len()
            &&& forall|i: int|
                0 <= i < items@.len() ==> task_matches_json(p.tasks@[i], #[trigger] items@[i])
        },
        _ => false,
    }
}

/// The task a JSON value describes, when it has the expected shape.
fn task_from_json(v: &JsonValue) -> (r: Option<AgentTask>)
    ensures
        match r {
            Some(t) => task_matches_json(t, *v),
            None => !task_json_wf(*v),
        },
{
    let name = match v.get("name") {
        Some(f) => match f.as_str() {
            Some(x) => x.clone(),
            None => {
                return None;
            },
        },
        None => {
            return None;
        },
    };
    let description = match v.get("description") {
        Some(f) => match f.as_str() {
            Some(x) => x.clone(),
            None => {
                return None;
            },
        },
        None => {
            return None;
        },
    };
    let completed = match v.get("completed") {
        Some(f) => match f.as_bool() {
            Some(x) => x,
            None => {
                return None;
            },
        },
        None => {
            return None;
        },
    };
    Some(AgentTask { name, description, completed })
}

/// The plan a JSON value describes, when it has the expected shape; nothing
/// is read from a malformed value.
pub fn plan_from_json(v: &JsonValue) -> (r: Option<AgentPlan>)
    ensures
        match r {
            Some(p) => plan_matches_json(p, *v),
            None => !plan_json_wf(*v),
        },
{
    let items = match v.get("tasks") {
        Some(f) => match f.as_array() {
            Some(items) => items,
            None => {
                return None;
            },
        },
        None => {
            return None;
        },
    };
    let mut tasks: Vec<AgentTask> = Vec::new();
    let n = items.len();
    let mut i: usize = 0;
    while i < n
        invariant
            v is Obj,
            match obj_get(v->Obj_0@, "tasks"@) {
                Some(JsonValue::Arr(a)) => a@ == items@,
                _ => false,
            },
            n == items@.len(),
            0 <= i <= n,
            tasks@.len() == i,
            forall|k: int| 0 <= k < i ==> task_matches_json(tasks@[k], #[trigger] items@[k]),
        decreases n - i,
    {
        match task_from_json(&items[i]) {
            Some(t) => {
                tasks.push(t);
            },
            None => {
                return None;
            },
        }
        i = i + 1;
    }
    Some(AgentPlan { tasks })
}

/// One task as the plan view prints it: its number and name on a colored
/// row, its description, and a colored status row.
pub open spec fn spec_task_block(i: int, t: AgentTask) -> Seq<char> {
    crate::render::spec_colorize(
        crate::strutil::spec_u64_digits(i as nat) + ". "@ + t.name@ + "\n"@,
        crate::render::AnsiColor::BrightGreen,
    ) + t.description@ + "\n"@ + "Status: "@ + (if t.completed {
        crate::render::spec_colorize("Completed"@, crate::render::AnsiColor::BrightBlue)
    } else {
        crate::render::spec_colorize("Pending"@, crate::render::AnsiColor::BrightRed)
    }) + "\n \n"@
}

/// The plan's tasks as printed, numbered from zero in plan order.
pub open spec fn spec_plan_content(tasks: Seq<AgentTask>) -> Seq<char>
    decreases tasks.len(),
{
    if tasks.len() == 0 {
        Seq::empty()
    } else {
        spec_plan_content(tasks.drop_last()) + spec_task_block(tasks.len() - 1, tasks.last())
    }
}

impl AgentPlan {
    /// Renders the plan, either as plain rows or boxed under the Agent Plan
    /// title.
    pub fn render_plan(&self, boxed: bool) -> (r: String)
        ensures
            !boxed ==> r@ == spec_plan_content(self.tasks@),
            boxed ==> exists|tw: int|
                1 <= tw <= u16::MAX && r@ == crate::render::spec_render_box(
                    spec_plan_content(self.tasks@),
                    Some("Agent Plan"@),
                    Some(crate::render::AnsiColor::BrightGreen),
                    false,
                    tw,
                ),
    {
        let mut content = String::new();
        let n = self.tasks.len();
        let mut i: usize = 0;
        while i < n
            invariant
                n == self.tasks@.len(),
                0 <= i <= n,
                content@ == spec_plan_content(self.tasks@.subrange(0, i as int)),
            decreases n - i,
        {
            proof {
                assert(self.tasks@.subrange(0, i + 1).drop_last() =~= self.tasks@.subrange(
                    0,
                    i as int,
                ));
            }
            let t = &self.tasks[i];
            let mut row = crate::strutil::u64_to_string(i as u64);
            row.append(". ");
            row.append(t.name.as_str());
            row.append("\n");
            let colored = crate::render::colorize_text(
                row.as_str(),
                crate::render::AnsiColor::BrightGreen,
            );
            content.append(colored.as_str());
            content.append(t.description.as_str());
            content.append("\n");
            content.append("Status: ");
            let status = if t.completed {
                crate::render::colorize_text("Completed", crate::render::AnsiColor::BrightBlue)
            } else {
                crate::render::colorize_text("Pending", crate::render::AnsiColor::BrightRed)
            };
            content.append(status.as_str());
            content.append("\n \n");
            proof {
                assert(content@ =~= spec_plan_content(self.tasks@.subrange(0, i + 1)));
            }
            i = i + 1;
        }
        proof {
            assert(self.tasks@.subrange(0, n as int) =~= self.tasks@);
        }
        if boxed {
            let b = crate::render::RoundedBox::new(
                content.as_str(),
                Some("Agent Plan"),
                Some(crate::render::AnsiColor::BrightGreen),
                false,
            );
            let r = b.render();
            proof {
                let tw = choose|tw: int|
                    1 <= tw <= u16::MAX && r@ == crate::render::spec_render_box(
                        b.text@,
                        crate::render::opt_str_view(b.title),
                        b.color,
                        b.center,
                        tw,
                    );
                assert(r@ == crate::render::spec_render_box(
                    spec_plan_content(self.tasks@),
                    Some("Agent Plan"@),
                    Some(crate::render::AnsiColor::BrightGreen),
                    false,
                    tw,
                ));
            }
            r
        } else {
            content
        }
    }
}

impl crate::present::AppUIRenderable for AgentPlan {
    fn render(&self, boxed: bool) -> String {
        self.render_plan(boxed)
    }
}

/// The planner: its status and the plan generated so far. It drives plan
/// generation through the orchestrator; the backend call itself happens
/// outside, and the planner takes its outcome.
#[derive(Debug)]
pub struct AgentMode {
    pub status: AgentStatus,
    pub plan: AgentPlan,
}

impl AgentMode {
    /// A planner that is switched off, with no plan.
    pub fn new() -> (r: AgentMode)
        ensures
            r.status is Disabled,
            r.plan.tasks@.len() == 0,
    {
        AgentMode { status: AgentStatus::Disabled, plan: AgentPlan { tasks: Vec::new() } }
    }

    /// The planner's current status.
    pub fn get_status(&self) -> (r: &AgentStatus)
        ensures
            *r == self.status,
    {
        &self.status
    }

    /// Starts a planning session: the planner becomes ready with an empty
    /// plan, ordinary system-prompt substitution is suspended, and the
    /// conversation is restarted with the planning system prompt as its
    /// only turn.
    pub fn init(&mut self, ollama_chat: &mut OllamaChat)
        ensures
            final(self).status is Ready,
            final(self).plan.tasks@.len() == 0,
            !final(ollama_chat).use_system_prompt,
            final(ollama_chat).host == old(ollama_chat).host,
            final(ollama_chat).port == old(ollama_chat).port,
            final(ollama_chat).history.messages@.len() == 1,
            final(ollama_chat).history.messages@[0].role is System,
            final(ollama_chat).history.messages@[0].content@ == spec_agent_system_prompt(),
            final(ollama_chat).history.messages@[0].tool_calls@.len() == 0,
    {
        self.status = AgentStatus::Ready;
        self.plan.tasks.clear();
        ollama_chat.use_system_prompt = false;
        ollama_chat.history.clear_messages();
        ollama_chat.history.push(Message::system(String::from_str(agent_system_prompt())));
    }

    /// Takes one user prompt. Disabled, the planner only reports that it is
    /// off. Ready, it sends the planning instruction together with the goal
    /// and moves to refining. Refining, it sends the prompt alone, relying
    /// on the accumulated conversation. Running, there is nothing to send.
    pub fn handle_prompt(&mut self, prompt: &str) -> (r: Result<Option<PlanRequest>, AppError>)
        ensures
            final(self).plan.tasks@ == old(self).plan.tasks@,
            match old(self).status {
                AgentStatus::Disabled => {
                    &&& final(self).status is Disabled
                    &&& r matches Err(e) && e.kind == ErrorKind::Protocol && e.message@
                        == "Agent mode is disabled"@
                },
                AgentStatus::Ready => {
                    &&& final(self).status is Plan
                    &&& r matches Ok(Some(req)) && req.messages@.len() == 2
                        && req.messages@[0].role is System && req.messages@[0].content@
                        == spec_plan_generation_prompt() && req.messages@[1].role is User
                        && req.messages@[1].content@ == prompt@
                        && req.messages@[0].tool_calls@.len() == 0
                        && req.messages@[1].tool_calls@.len() == 0
                },
                AgentStatus::Plan => {
                    &&& final(self).status is Plan
                    &&& r matches Ok(Some(req)) && req.messages@.len() == 1
                        && req.messages@[0].role is User && req.messages@[0].content@ == prompt@
                        && req.messages@[0].tool_calls@.len() == 0
                },
                AgentStatus::Running => final(self).status is Running && r matches Ok(None),
            },
    {
        match self.status {
            AgentStatus::Disabled => Err(
                AppError::new(ErrorKind::Protocol, String::from_str("Agent mode is disabled")),
            ),
            AgentStatus::Ready => {
                self.status = AgentStatus::Plan;
                let mut messages: Vec<Message> = Vec::new();
                messages.push(Message::system(String::from_str(plan_generation_prompt())));
                messages.push(Message::user(String::from_str(prompt)));
                Ok(Some(PlanRequest { messages }))
            },
            AgentStatus::Plan => {
                let mut messages: Vec<Message> = Vec::new();
                messages.push(Message::user(String::from_str(prompt)));
                Ok(Some(PlanRequest { messages }))
            },
            AgentStatus::Running => Ok(None),
        }
    }

    /// Takes what the planning request produced: the parsed JSON of the
    /// constrained output, or the backend's failure. A well-formed plan
    /// replaces the in-memory plan wholesale and the planner keeps
    /// refining. A backend failure or a malformed plan reverts the planner
    /// to ready, leaves the previous plan untouched, and hands a
    /// descriptive error back.
    pub fn apply_plan_response(&mut self, outcome: Result<JsonValue, String>) -> (r: Result<
        (),
        AppError,
    >)
        requires
            old(self).status is Plan,
        ensures
            match outcome {
                Ok(v) => {
                    if plan_json_wf(v) {
                        &&& r is Ok
                        &&& final(self).status is Plan
                        &&& plan_matches_json(final(self).plan, v)
                    } else {
                        &&& final(self).status is Ready
                        &&& final(self).plan == old(self).plan
                        &&& r matches Err(e) && e.kind == ErrorKind::Protocol && e.message@
                            == "Error parsing agent plan: the model output is not a plan"@
                    }
                },
                Err(msg) => {
                    &&& final(self).status is Ready
                    &&& final(self).plan == old(self).plan
                    &&& r matches Err(e) && e.kind == ErrorKind::Connection && e.message@
                        == "Error generating agent plan: "@ + msg@
                },
            },
    {
        match outcome {
            Ok(v) => match plan_from_json(&v) {
                Some(plan) => {
                    self.plan = plan;
                    Ok(())
                },
                None => {
                    self.status = AgentStatus::Ready;
                    Err(
                        AppError::new(
                            ErrorKind::Protocol,
                            String::from_str(
                                "Error parsing agent plan: the model output is not a plan",
                            ),
                        ),
                    )
                },
            },
            Err(msg) => {
                self.status = AgentStatus::Ready;
                let mut message = String::from_str("Error generating agent plan: ");
                message.append(msg.as_str());
                Err(AppError::new(ErrorKind::Connection, message))
            },
        }
    }
}

} // verus!
