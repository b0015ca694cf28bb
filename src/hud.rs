use vstd::prelude::*;

verus! {

/// The transient messages of the heads-up display.
#[derive(Clone, Copy, Debug, PartialEq, Eq, Structural)]
pub enum Message {
    GetReady,
    GameOver,
    DefaultPrompt,
}

/// The state of the heads-up display.
#[derive(Clone, Copy, Debug, PartialEq, Eq, Structural)]
pub struct Hud {
    pub message: Message,
    pub message_visible: bool,
    /// The timer that clears a shown message.
    pub message_timer_running: bool,
    pub default_message_pending: bool,
    pub start_visible: bool,
    pub score: u64,
    /// A start request waiting to be handed to the game.
    pub start_requested: bool,
}

pub open spec fn message_text(m: Message) -> Seq<char> {
    match m {
        Message::GetReady => "Get Ready"@,
        Message::GameOver => "Game Over"@,
        Message::DefaultPrompt => "Dodge the Creeps!"@,
    }
}

/// The decimal digits of `n`, most significant first, in ASCII.
pub open spec fn decimal(n: nat) -> Seq<u8>
    decreases n,
{
    if n < 10 {
        seq![(48 + n) as u8]
    } else {
        decimal(n / 10).push((48 + n % 10) as u8)
    }
}

impl Message {
    /// The text shown for the message.
    pub fn text(&self) -> (r: &'static str)
        ensures
            r@ == message_text(*self),
    {
        match self {
            Message::GetReady => "Get Ready",
            Message::GameOver => "Game Over",
            Message::DefaultPrompt => "Dodge the Creeps!",
        }
    }
}

/// The decimal digits of `n`, most significant first, in ASCII.
pub fn decimal_digits(n: u64) -> (r: Vec<u8>)
    ensures
        r@ == decimal(n as nat),
    decreases n,
{
    if n < 10 {
        vec![48u8 + n as u8]
    } else {
        let mut v = decimal_digits(n / 10);
        v.push(48u8 + (n % 10) as u8);
        v
    }
}

impl Hud {
    pub open spec fn shown(self, m: Message) -> Hud {
        Hud { message: m, message_visible: true, message_timer_running: true, ..self }
    }

    pub open spec fn shown_game_over(self) -> Hud {
        Hud { default_message_pending: true, ..self.shown(Message::GameOver) }
    }

    pub open spec fn after_reset(self) -> Hud {
        if self.default_message_pending {
            Hud {
                message: Message::DefaultPrompt,
                message_visible: true,
                start_visible: true,
                default_message_pending: false,
                message_timer_running: false,
                ..self
            }
        } else {
            Hud { message_visible: false, message_timer_running: false, ..self }
        }
    }

    pub open spec fn new_spec() -> Hud {
        Hud {
            message: Message::DefaultPrompt,
            message_visible: true,
            message_timer_running: false,
            default_message_pending: false,
            start_visible: true,
            score: 0,
            start_requested: false,
        }
    }

    /// A display showing the default prompt and the start button.
    pub fn new() -> (r: Hud)
        ensures
            r == Hud::new_spec(),
    {
        Hud {
            message: Message::DefaultPrompt,
            message_visible: true,
            message_timer_running: false,
            default_message_pending: false,
            start_visible: true,
            score: 0,
            start_requested: false,
        }
    }

    /// Shows `m` and starts the timer that will clear it.
    pub fn show_message(&mut self, m: Message)
        ensures
            *final(self) == old(self).shown(m),
    {
        self.message = m;
        self.message_visible = true;
        self.message_timer_running = true;
    }

    /// Shows "Game Over"; the next reset brings the default prompt back.
    pub fn show_game_over(&mut self)
        ensures
            *final(self) == old(self).shown_game_over(),
    {
        self.show_message(Message::GameOver);
        self.default_message_pending = true;
    }

    /// Called when the message timer runs out: shows the default prompt and
    /// the start button where one is pending, and hides the message otherwise.
    pub fn reset_message(&mut self)
        ensures
            *final(self) == old(self).after_reset(),
    {
        self.message_timer_running = false;
        if self.default_message_pending {
            self.message = Message::DefaultPrompt;
            self.message_visible = true;
            self.start_visible = true;
            self.default_message_pending = false;
        } else {
            self.message_visible = false;
        }
    }

    /// Records the score to display.
    pub fn update_score(&mut self, score: u64)
        ensures
            *final(self) == (Hud { score, ..*old(self) }),
    {
        self.score = score;
    }

    /// The score's text: its decimal digits.
    pub fn score_text(&self) -> (r: Vec<u8>)
        ensures
            r@ == decimal(self.score as nat),
    {
        decimal_digits(self.score)
    }

    /// The start button was pressed: it is hidden and a start request waits
    /// to be handed to the game once the current step is over.
    pub fn start_pressed(&mut self)
        ensures
            *final(self) == (Hud { start_visible: false, start_requested: true, ..*old(self) }),
    {
        self.start_visible = false;
        self.start_requested = true;
    }
}

} // verus!
