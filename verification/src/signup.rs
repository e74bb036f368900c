use vstd::prelude::*;

verus! {

/// The plan a new account is opened on.
#[derive(Debug, Clone, Copy, PartialEq, Eq, Structural)]
pub enum Plan {
    Basic,
    Pro,
    Enterprise,
}

impl Default for Plan {
    fn default() -> (plan: Plan)
        ensures
            plan == Plan::Basic,
    {
        Plan::Basic
    }
}

impl Plan {
    /// The name of the plan as the form shows it.
    pub open spec fn spec_name(self) -> Seq<char> {
        match self {
            Plan::Basic => "Basic"@,
            Plan::Pro => "Pro"@,
            Plan::Enterprise => "Enterprise"@,
        }
    }

    /// Every plan, in the order in which the form offers them.
    pub fn all() -> (plans: [Plan; 3])
        ensures
            plans@ == seq![Plan::Basic, Plan::Pro, Plan::Enterprise],
    {
        [Plan::Basic, Plan::Pro, Plan::Enterprise]
    }

    pub fn name(&self) -> (name: &'static str)
        ensures
            name@ == self.spec_name(),
    {
        match self {
            Plan::Basic => "Basic",
            Plan::Pro => "Pro",
            Plan::Enterprise => "Enterprise",
        }
    }
}

/// The keyboard events that the form reacts to.
#[derive(Debug, Clone, Copy, PartialEq, Eq, Structural)]
pub enum Event {
    /// Tab went down, with or without Shift held.
    TabPressed { shift: bool },
    /// Escape went down.
    EscapePressed,
    /// Any other event.
    Other,
}

/// What the user did.
#[derive(Debug, PartialEq, Eq)]
pub enum Message {
    ShowModal,
    HideModal,
    Email(String),
    Password(String),
    Plan(Plan),
    Submit,
    Event(Event),
}

/// What the window has to do after a message.
#[derive(Debug, Clone, Copy, PartialEq, Eq, Structural)]
pub enum Command {
    /// Move the keyboard focus to the next field.
    FocusNext,
    /// Move the keyboard focus to the previous field.
    FocusPrevious,
}

/// The sign-up form and the modal overlay that shows it.
#[derive(Debug, PartialEq, Eq)]
pub struct App {
    pub show_modal: bool,
    pub email: String,
    pub password: String,
    pub plan: Plan,
}

/// An [`App`] with its texts as sequences of characters.
pub struct AppView {
    pub show_modal: bool,
    pub email: Seq<char>,
    pub password: Seq<char>,
    pub plan: Plan,
}

impl View for App {
    type V = AppView;

    open spec fn view(&self) -> AppView {
        AppView {
            show_modal: self.show_modal,
            email: self.email@,
            password: self.password@,
            plan: self.plan,
        }
    }
}

impl AppView {
    /// The form with the overlay closed and both texts wiped.
    pub open spec fn hidden(self) -> AppView {
        AppView { show_modal: false, email: Seq::empty(), password: Seq::empty(), plan: self.plan }
    }

    /// Whether both the address and the password are filled in.
    pub open spec fn complete(self) -> bool {
        self.email.len() > 0 && self.password.len() > 0
    }

    /// The form after one message.
    pub open spec fn after(self, message: Message) -> AppView {
        match message {
            Message::ShowModal => AppView { show_modal: true, ..self },
            Message::HideModal => self.hidden(),
            Message::Email(email) => AppView { email: email@, ..self },
            Message::Password(password) => AppView { password: password@, ..self },
            Message::Plan(plan) => AppView { plan, ..self },
            Message::Submit => if self.complete() {
                self.hidden()
            } else {
                self
            },
            Message::Event(Event::EscapePressed) => self.hidden(),
            Message::Event(_) => self,
        }
    }
}

/// What the window has to do after `message`, if anything.
pub open spec fn command_after(message: Message) -> Option<Command> {
    match message {
        Message::ShowModal => Some(Command::FocusNext),
        Message::Event(Event::TabPressed { shift }) => if shift {
            Some(Command::FocusPrevious)
        } else {
            Some(Command::FocusNext)
        },
        _ => None,
    }
}

impl Default for App {
    fn default() -> (app: App)
        ensures
            app@ == (AppView {
                show_modal: false,
                email: Seq::empty(),
                password: Seq::empty(),
                plan: Plan::Basic,
            }),
    {
        App { show_modal: false, email: String::new(), password: String::new(), plan: Plan::Basic }
    }
}

impl App {
    /// Handles one message and says what the window has to do next.
    pub fn update(&mut self, message: Message) -> (command: Option<Command>)
        ensures
            final(self)@ == old(self)@.after(message),
            command == command_after(message),
    {
        match message {
            Message::ShowModal => {
                self.show_modal = true;
                Some(Command::FocusNext)
            },
            Message::HideModal => {
                self.hide_modal();
                None
            },
            Message::Email(email) => {
                self.email = email;
                None
            },
            Message::Password(password) => {
                self.password = password;
                None
            },
            Message::Plan(plan) => {
                self.plan = plan;
                None
            },
            Message::Submit => {
                if !self.email.as_str().is_empty() && !self.password.as_str().is_empty() {
                    self.hide_modal();
                }
                None
            },
            Message::Event(event) => match event {
                Event::TabPressed { shift } => {
                    if shift {
                        Some(Command::FocusPrevious)
                    } else {
                        Some(Command::FocusNext)
                    }
                },
                Event::EscapePressed => {
                    self.hide_modal();
                    None
                },
                Event::Other => None,
            },
        }
    }

    /// Closes the overlay and wipes what was typed into it.
    pub fn hide_modal(&mut self)
        ensures
            final(self)@ == old(self)@.hidden(),
    {
        self.show_modal = false;
        self.email = String::new();
        self.password = String::new();
    }
}

} // verus!
