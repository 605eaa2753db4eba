//! Commands read from the terminal, and the queue of pending turns.

use crate::game::{tick_post, Game};
use crate::snake::{heading_after, Snake};
use crate::utils::{is_opposite, Direction};
use std::collections::VecDeque;
use vstd::prelude::*;

verus! {

/// Most turns that wait for a tick.
pub const QUEUE_CAPACITY: usize = 2;

/// A command for the game loop or the menus.
#[derive(Debug, Clone, Copy, PartialEq, Eq, Structural)]
pub enum GameInput {
    Direction(Direction),
    Pause,
    Quit,
    MenuSelect(usize),
    MenuConfirm,
    ToggleMute,
    FocusLost,
    Resize(u16, u16),
}

/// A key as the terminal reports it.
#[derive(Debug, Clone, Copy, PartialEq, Eq, Structural)]
pub enum Key {
    Char(char),
    Up,
    Down,
    Left,
    Right,
    Enter,
    Other,
}

/// A terminal event.
#[derive(Debug, Clone, Copy, PartialEq, Eq, Structural)]
pub enum TerminalEvent {
    /// A key was pressed (releases and repeats are not reported here).
    KeyPress(Key),
    Resize(u16, u16),
    FocusLost,
    Other,
}

/// The command that a key press stands for.
pub open spec fn input_for_key_spec(key: Key) -> Option<GameInput> {
    match key {
        Key::Char(c) => if c == 'q' || c == 'Q' {
            Some(GameInput::Quit)
        } else if c == 'p' || c == 'P' {
            Some(GameInput::Pause)
        } else if c == 'm' || c == 'M' {
            Some(GameInput::ToggleMute)
        } else if c == 'w' || c == 'W' {
            Some(GameInput::Direction(Direction::Up))
        } else if c == 's' || c == 'S' {
            Some(GameInput::Direction(Direction::Down))
        } else if c == 'a' || c == 'A' {
            Some(GameInput::Direction(Direction::Left))
        } else if c == 'd' || c == 'D' {
            Some(GameInput::Direction(Direction::Right))
        } else if '1' <= c <= '6' {
            Some(GameInput::MenuSelect((c as int - '1' as int) as usize))
        } else if c == '\n' || c == ' ' {
            Some(GameInput::MenuConfirm)
        } else {
            None
        },
        Key::Up => Some(GameInput::Direction(Direction::Up)),
        Key::Down => Some(GameInput::Direction(Direction::Down)),
        Key::Left => Some(GameInput::Direction(Direction::Left)),
        Key::Right => Some(GameInput::Direction(Direction::Right)),
        Key::Enter => Some(GameInput::MenuConfirm),
        Key::Other => None,
    }
}

/// The command that a terminal event stands for.
pub open spec fn input_for_event_spec(event: TerminalEvent) -> Option<GameInput> {
    match event {
        TerminalEvent::KeyPress(key) => input_for_key_spec(key),
        TerminalEvent::Resize(w, h) => Some(GameInput::Resize(w, h)),
        TerminalEvent::FocusLost => Some(GameInput::FocusLost),
        TerminalEvent::Other => None,
    }
}

/// Translates a key press: letters in either case, arrows, digits 1 to 6
/// for menu rows, Enter and space to confirm.
pub fn input_for_key(key: Key) -> (r: Option<GameInput>)
    ensures
        r == input_for_key_spec(key),
{
    match key {
        Key::Char(c) => {
            if c == 'q' || c == 'Q' {
                Some(GameInput::Quit)
            } else if c == 'p' || c == 'P' {
                Some(GameInput::Pause)
            } else if c == 'm' || c == 'M' {
                Some(GameInput::ToggleMute)
            } else if c == 'w' || c == 'W' {
                Some(GameInput::Direction(Direction::Up))
            } else if c == 's' || c == 'S' {
                Some(GameInput::Direction(Direction::Down))
            } else if c == 'a' || c == 'A' {
                Some(GameInput::Direction(Direction::Left))
            } else if c == 'd' || c == 'D' {
                Some(GameInput::Direction(Direction::Right))
            } else if '1' <= c && c <= '6' {
                Some(GameInput::MenuSelect((c as u32 - '1' as u32) as usize))
            } else if c == '\n' || c == ' ' {
                Some(GameInput::MenuConfirm)
            } else {
                None
            }
        },
        Key::Up => Some(GameInput::Direction(Direction::Up)),
        Key::Down => Some(GameInput::Direction(Direction::Down)),
        Key::Left => Some(GameInput::Direction(Direction::Left)),
        Key::Right => Some(GameInput::Direction(Direction::Right)),
        Key::Enter => Some(GameInput::MenuConfirm),
        Key::Other => None,
    }
}

/// Translates a terminal event into a command, if it stands for one.
pub fn input_for_event(event: TerminalEvent) -> (r: Option<GameInput>)
    ensures
        r == input_for_event_spec(event),
{
    match event {
        TerminalEvent::KeyPress(key) => input_for_key(key),
        TerminalEvent::Resize(w, h) => Some(GameInput::Resize(w, h)),
        TerminalEvent::FocusLost => Some(GameInput::FocusLost),
        TerminalEvent::Other => None,
    }
}

/// Whether `next` is the exact reverse of `current`.
pub fn is_reverse_direction(current: Direction, next: Direction) -> (r: bool)
    ensures
        r == is_opposite(current, next),
{
    match (current, next) {
        (Direction::Up, Direction::Down) => true,
        (Direction::Down, Direction::Up) => true,
        (Direction::Left, Direction::Right) => true,
        (Direction::Right, Direction::Left) => true,
        _ => false,
    }
}

/// The queue after offering `direction` while the snake heads `heading`:
/// a direction equal to, or the reverse of, the last queued one (the
/// heading when none is queued) is dropped; a full queue lets its oldest
/// entry go to admit the new one.
pub open spec fn queue_after_push(queue: Seq<Direction>, direction: Direction, heading: Direction) -> Seq<
    Direction,
> {
    let reference = if queue.len() > 0 {
        queue.last()
    } else {
        heading
    };
    if direction == reference || is_opposite(reference, direction) {
        queue
    } else if queue.len() >= QUEUE_CAPACITY {
        queue.subrange(queue.len() - (QUEUE_CAPACITY - 1), queue.len() as int).push(direction)
    } else {
        queue.push(direction)
    }
}

/// Turns waiting for the next ticks, oldest first.
pub struct DirectionQueue {
    items: VecDeque<Direction>,
}

impl View for DirectionQueue {
    type V = Seq<Direction>;

    closed spec fn view(&self) -> Seq<Direction> {
        self.items@
    }
}

impl DirectionQueue {
    /// Never more than the capacity.
    pub closed spec fn wf(&self) -> bool {
        self.items@.len() <= QUEUE_CAPACITY
    }

    pub fn new() -> (r: DirectionQueue)
        ensures
            r.wf(),
            r@ == Seq::<Direction>::empty(),
    {
        DirectionQueue { items: VecDeque::new() }
    }

    pub fn len(&self) -> (r: usize)
        ensures
            r == self@.len(),
    {
        self.items.len()
    }

    /// The oldest pending turn.
    pub fn front(&self) -> (r: Option<Direction>)
        ensures
            r == if self@.len() > 0 {
                Some(self@[0])
            } else {
                None::<Direction>
            },
    {
        if self.items.len() > 0 {
            Some(self.items[0])
        } else {
            None
        }
    }

    /// Offers a turn, filtered against the last queued one or, when none
    /// is queued, against the snake's heading.
    pub fn push(&mut self, direction: Direction, heading: Direction)
        requires
            old(self).wf(),
        ensures
            final(self).wf(),
            final(self)@ == queue_after_push(old(self)@, direction, heading),
    {
        let n = self.items.len();
        let reference = if n > 0 {
            self.items[n - 1]
        } else {
            heading
        };
        if direction == reference || is_reverse_direction(reference, direction) {
            return;
        }
        if n >= QUEUE_CAPACITY {
            let _ = self.items.pop_front();
            proof {
                assert(self.items@ =~= old(self).items@.subrange(
                    n - (QUEUE_CAPACITY - 1),
                    n as int,
                ));
            }
        }
        self.items.push_back(direction);
    }

    /// Takes the oldest pending turn out.
    pub fn pop_front(&mut self) -> (r: Option<Direction>)
        requires
            old(self).wf(),
        ensures
            final(self).wf(),
            old(self)@.len() == 0 ==> r is None && final(self)@ == old(self)@,
            old(self)@.len() > 0 ==> r == Some(old(self)@[0]) && final(self)@ == old(self)@.drop_first(),
    {
        let first = self.items.pop_front();
        proof {
            assert(old(self).items@.subrange(1, old(self).items@.len() as int)
                =~= old(self).items@.drop_first());
        }
        first
    }

    pub fn clear(&mut self)
        ensures
            final(self).wf(),
            final(self)@ == Seq::<Direction>::empty(),
    {
        self.items.clear();
    }
}

/// The game with the oldest pending turn, if any, applied to the heading.
pub open spec fn turned(g: Game, queue: Seq<Direction>) -> Game {
    if queue.len() > 0 {
        Game {
            snake: Snake { direction: heading_after(g.snake.direction, queue[0]), ..g.snake },
            ..g
        }
    } else {
        g
    }
}

/// One step of play: the oldest pending turn, if any, is applied to the
/// snake, then the game ticks.
pub fn advance(game: &mut Game, queue: &mut DirectionQueue)
    requires
        old(game).wf(),
        old(queue).wf(),
    ensures
        final(game).wf(),
        final(queue).wf(),
        old(queue)@.len() > 0 ==> final(queue)@ == old(queue)@.drop_first(),
        old(queue)@.len() == 0 ==> final(queue)@ == old(queue)@,
        tick_post(turned(*old(game), old(queue)@), *final(game)),
{
    let next = queue.pop_front();
    match next {
        Some(direction) => game.update_snake_direction(direction),
        None => {},
    }
    game.tick();
}

/// What the game loop does after an input during play.
#[derive(Debug, Clone, Copy, PartialEq, Eq, Structural)]
pub enum PlayAction {
    /// Keep playing.
    Continue,
    /// The terminal has a new size.
    Resize(u16, u16),
    /// Go back to the menu.
    ToMenu,
    /// Leave the program.
    Quit,
}

/// The action that an input asks for, apart from its effect on the game.
pub open spec fn play_action_of(input: GameInput) -> PlayAction {
    match input {
        GameInput::Resize(w, h) => PlayAction::Resize(w, h),
        GameInput::MenuConfirm => PlayAction::ToMenu,
        GameInput::Quit => PlayAction::Quit,
        _ => PlayAction::Continue,
    }
}

/// Applies an input during play: pause and mute toggle, losing focus
/// pauses when `pause_on_focus_loss` is set, a direction is offered to the
/// queue of turns; the rest becomes an action for the loop.
pub fn handle_play_input(
    game: &mut Game,
    queue: &mut DirectionQueue,
    input: GameInput,
    pause_on_focus_loss: bool,
) -> (r: PlayAction)
    requires
        old(queue).wf(),
    ensures
        r == play_action_of(input),
        final(queue).wf(),
        final(queue)@ == match input {
            GameInput::Direction(d) => queue_after_push(old(queue)@, d, old(game).snake.direction),
            _ => old(queue)@,
        },
        *final(game) == match input {
            GameInput::Pause => Game {
                paused: if old(game).game_over {
                    old(game).paused
                } else {
                    !old(game).paused
                },
                ..*old(game)
            },
            GameInput::ToggleMute => Game { muted: !old(game).muted, ..*old(game) },
            GameInput::FocusLost => Game {
                paused: old(game).paused || (pause_on_focus_loss && !old(game).game_over),
                ..*old(game)
            },
            _ => *old(game),
        },
{
    match input {
        GameInput::Resize(w, h) => PlayAction::Resize(w, h),
        GameInput::MenuConfirm => PlayAction::ToMenu,
        GameInput::Quit => PlayAction::Quit,
        GameInput::Pause => {
            game.toggle_pause();
            PlayAction::Continue
        },
        GameInput::ToggleMute => {
            game.toggle_mute();
            PlayAction::Continue
        },
        GameInput::FocusLost => {
            if pause_on_focus_loss && !game.is_paused() {
                game.toggle_pause();
            }
            PlayAction::Continue
        },
        GameInput::Direction(direction) => {
            queue.push(direction, game.snake.direction);
            PlayAction::Continue
        },
        GameInput::MenuSelect(_) => PlayAction::Continue,
    }
}

/// What the game loop does after an input once the game is over: only a
/// resize, going back to the menu and quitting count.
pub fn game_over_action(input: GameInput) -> (r: PlayAction)
    ensures
        r == play_action_of(input),
{
    match input {
        GameInput::Resize(w, h) => PlayAction::Resize(w, h),
        GameInput::MenuConfirm => PlayAction::ToMenu,
        GameInput::Quit => PlayAction::Quit,
        _ => PlayAction::Continue,
    }
}

} // verus!
