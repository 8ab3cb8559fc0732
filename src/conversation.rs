//! The conversation state: the ordered log of messages sent to the model on
//! every turn, seeded with one system message that carries today's date.
use crate::tool_host::FunctionCall;
use vstd::prelude::*;

verus! {

/// A tool call requested by the model, with the id its answer must carry.
#[derive(Debug, PartialEq)]
pub struct ToolCall {
    pub id: String,
    pub function: FunctionCall,
}

/// The content of a [`ToolCall`].
pub ghost struct ToolCallView {
    pub id: Seq<char>,
    pub name: Seq<char>,
    pub arguments: Seq<char>,
}

impl View for ToolCall {
    type V = ToolCallView;

    open spec fn view(&self) -> ToolCallView {
        ToolCallView { id: self.id@, name: self.function.name@, arguments: self.function.arguments@ }
    }
}

/// The views of `calls`, in order.
pub open spec fn calls_view(calls: Seq<ToolCall>) -> Seq<ToolCallView> {
    calls.map_values(|c: ToolCall| c@)
}

/// One entry of the conversation.
#[derive(Debug, PartialEq)]
pub enum Message {
    System(String),
    User(String),
    Assistant { content: String, tool_calls: Vec<ToolCall> },
    Tool { tool_call_id: String, content: String },
}

/// The content of a [`Message`].
pub ghost enum MessageView {
    System(Seq<char>),
    User(Seq<char>),
    Assistant { content: Seq<char>, tool_calls: Seq<ToolCallView> },
    Tool { tool_call_id: Seq<char>, content: Seq<char> },
}

impl View for Message {
    type V = MessageView;

    open spec fn view(&self) -> MessageView {
        match self {
            Message::System(c) => MessageView::System(c@),
            Message::User(c) => MessageView::User(c@),
            Message::Assistant { content, tool_calls } => MessageView::Assistant {
                content: content@,
                tool_calls: calls_view(tool_calls@),
            },
            Message::Tool { tool_call_id, content } => MessageView::Tool {
                tool_call_id: tool_call_id@,
                content: content@,
            },
        }
    }
}

/// The views of `messages`, in order.
pub open spec fn messages_view(messages: Seq<Message>) -> Seq<MessageView> {
    messages.map_values(|m: Message| m@)
}

pub open spec fn is_leap_year(year: int) -> bool {
    (year % 4 == 0 && year % 100 != 0) || year % 400 == 0
}

pub open spec fn days_in_month(year: int, month: int) -> int {
    if month == 2 {
        if is_leap_year(year) {
            29
        } else {
            28
        }
    } else if month == 4 || month == 6 || month == 9 || month == 11 {
        30
    } else {
        31
    }
}

/// A day of the Gregorian calendar in the years 1 to 9999.
pub open spec fn is_valid_date(year: int, month: int, day: int) -> bool {
    &&& 1 <= year <= 9999
    &&& 1 <= month <= 12
    &&& 1 <= day <= days_in_month(year, month)
}

/// A calendar day.
#[derive(Debug)]
pub struct CalendarDate {
    year: i32,
    month: u32,
    day: u32,
}

/// The date written as `YYYY-MM-DD`.
pub uninterp spec fn iso_date_text(year: int, month: int, day: int) -> Seq<char>;

/// Relies on chrono::NaiveDate::from_ymd_opt, which accepts every real day
/// of the years 1 to 9999, and on chrono's `%Y-%m-%d` formatting.
#[verifier::external_body]
fn format_iso_date(year: i32, month: u32, day: u32) -> (r: Option<String>)
    ensures
        is_valid_date(year as int, month as int, day as int) ==> r is Some,
        r matches Some(s) ==> s@ == iso_date_text(year as int, month as int, day as int),
{
    match chrono::NaiveDate::from_ymd_opt(year, month, day) {
        Some(date) => Some(date.format("%Y-%m-%d").to_string()),
        None => None,
    }
}

impl CalendarDate {
    #[verifier::type_invariant]
    spec fn is_valid(self) -> bool {
        is_valid_date(self.year as int, self.month as int, self.day as int)
    }

    pub closed spec fn year(self) -> int {
        self.year as int
    }

    pub closed spec fn month(self) -> int {
        self.month as int
    }

    pub closed spec fn day(self) -> int {
        self.day as int
    }

    /// The day `year-month-day`, if it exists in the years 1 to 9999.
    pub fn new(year: i32, month: u32, day: u32) -> (r: Option<CalendarDate>)
        ensures
            r is Some <==> is_valid_date(year as int, month as int, day as int),
            r matches Some(d) ==> d.year() == year && d.month() == month && d.day() == day,
    {
        if year < 1 || year > 9999 || month < 1 || month > 12 || day < 1 {
            return None;
        }
        let leap = (year % 4 == 0 && year % 100 != 0) || year % 400 == 0;
        let last: u32 = if month == 2 {
            if leap {
                29
            } else {
                28
            }
        } else if month == 4 || month == 6 || month == 9 || month == 11 {
            30
        } else {
            31
        };
        if day > last {
            None
        } else {
            Some(CalendarDate { year, month, day })
        }
    }
}

/// The seed of every conversation.
pub open spec fn system_prompt(today: CalendarDate) -> Seq<char> {
    "You are a helpful assistant. You know that today is "@ + iso_date_text(
        today.year(),
        today.month(),
        today.day(),
    )
}

/// A log that starts with its one system message.
pub open spec fn is_seeded_log(log: Seq<MessageView>) -> bool {
    &&& log.len() >= 1
    &&& log[0] is System
    &&& forall|i: int| 1 <= i < log.len() ==> !(#[trigger] log[i] is System)
}

/// The ordered transcript of one session.  Entries are only ever appended.
#[derive(Debug)]
pub struct Conversation {
    messages: Vec<Message>,
}

impl View for Conversation {
    type V = Seq<MessageView>;

    closed spec fn view(&self) -> Seq<MessageView> {
        messages_view(self.messages@)
    }
}

impl Conversation {
    /// A conversation holding only the system message for `today`.
    pub fn new(today: &CalendarDate) -> (r: Conversation)
        ensures
            r@ == seq![MessageView::System(system_prompt(*today))],
            is_seeded_log(r@),
    {
        proof {
            use_type_invariant(today);
        }
        let date = match format_iso_date(today.year, today.month, today.day) {
            Some(s) => s,
            None => String::new(),
        };
        let prompt = String::from_str("You are a helpful assistant. You know that today is ").concat(
            date.as_str(),
        );
        let mut messages: Vec<Message> = Vec::new();
        messages.push(Message::System(prompt));
        let r = Conversation { messages };
        assert(r@ =~= seq![MessageView::System(system_prompt(*today))]);
        r
    }

    /// Appends one entry.  The system message is only ever the seed.
    pub fn append(&mut self, message: Message)
        requires
            !(message is System),
        ensures
            final(self)@ == old(self)@.push(message@),
    {
        self.messages.push(message);
        assert(messages_view(self.messages@) =~= messages_view(old(self).messages@).push(message@));
    }

    /// The entries so far, in order, for reading.
    pub fn snapshot(&self) -> (r: &Vec<Message>)
        ensures
            messages_view(r@) == self@,
    {
        &self.messages
    }

    /// The number of entries.
    pub fn len(&self) -> (r: usize)
        ensures
            r == self@.len(),
    {
        self.messages.len()
    }
}

} // verus!
