//! Session avatars: which face a session gets and how it is animated.
use vstd::prelude::*;
use vstd::utf8::encode_utf8;
use crate::status_palette::ChatIndicator;
use crate::theme::{solid, solid_tint, Theme, Tint};

verus! {

/// The faces, in the order the avatar hash picks from.
#[derive(Debug, Clone, Copy, PartialEq, Eq, Structural)]
pub enum Bot {
    Orbit,
    Visor,
    Dome,
    Box,
    Ears,
    Halo,
    Sprout,
    Bolt,
    Basic,
}

/// One drawing of a face.
#[derive(Debug, Clone, Copy, PartialEq, Eq, Structural)]
pub struct BotImage {
    pub bot: Bot,
    /// Eyes closed.
    pub blink: bool,
}

/// The face at a place of the list.
pub open spec fn bot_at(place: int) -> Bot {
    if place == 0 {
        Bot::Orbit
    } else if place == 1 {
        Bot::Visor
    } else if place == 2 {
        Bot::Dome
    } else if place == 3 {
        Bot::Box
    } else if place == 4 {
        Bot::Ears
    } else if place == 5 {
        Bot::Halo
    } else if place == 6 {
        Bot::Sprout
    } else if place == 7 {
        Bot::Bolt
    } else {
        Bot::Basic
    }
}

/// The multiplicative hash of some bytes, in a ring of the given size.
pub open spec fn byte_hash(bytes: Seq<u8>, size: int) -> int
    decreases bytes.len(),
{
    if bytes.len() == 0 {
        0
    } else {
        (byte_hash(bytes.drop_last(), size) * 31 + bytes.last()) % size
    }
}

/// The face of a session.
pub open spec fn bot_of(session: Seq<char>) -> Bot {
    bot_at(byte_hash(encode_utf8(session), 256) % 9)
}

fn hash(bytes: &[u8], size: u32) -> (r: u32)
    requires
        0 < size <= 0x1_0000,
    ensures
        r == byte_hash(bytes@, size as int),
        r < size,
{
    let mut hash: u32 = 0;
    let mut i: usize = 0;
    proof {
        assert(bytes@.take(0) =~= Seq::<u8>::empty());
    }
    while i < bytes.len()
        invariant
            i <= bytes@.len(),
            0 < size <= 0x1_0000,
            hash < size,
            hash == byte_hash(bytes@.take(i as int), size as int),
        decreases bytes@.len() - i,
    {
        proof {
            let front = bytes@.take(i + 1);
            assert(front.drop_last() =~= bytes@.take(i as int));
        }
        hash = (hash * 31 + bytes[i] as u32) % size;
        i += 1;
    }
    proof {
        assert(bytes@.take(i as int) =~= bytes@);
    }
    hash
}

/// Keeps session avatars identical wherever their identity is shown: the open
/// and the blinking drawing of the session's face.
pub fn avatar_for_session(session: &str) -> (r: (BotImage, BotImage))
    ensures
        r.0 == (BotImage { bot: bot_of(session@), blink: false }),
        r.1 == (BotImage { bot: bot_of(session@), blink: true }),
{
    let variant: u32 = hash(session.as_bytes(), 256);
    let bot: Bot = match variant % 9 {
        0 => Bot::Orbit,
        1 => Bot::Visor,
        2 => Bot::Dome,
        3 => Bot::Box,
        4 => Bot::Ears,
        5 => Bot::Halo,
        6 => Bot::Sprout,
        7 => Bot::Bolt,
        _ => Bot::Basic,
    };
    (BotImage { bot, blink: false }, BotImage { bot, blink: true })
}

/// The offset of an avatar's animation, out of 65535, so that neighbours do
/// not move in step.
pub fn animation_offset(image: &str) -> (r: u16)
    ensures
        r == byte_hash(encode_utf8(image@), 65536),
{
    hash(image.as_bytes(), 65536) as u16
}

/// The colour of a session's badge: an undelivered send is danger, a queued
/// one warning, whatever the session does.
pub open spec fn badge_tint(
    status: ChatIndicator,
    queued: bool,
    undelivered: bool,
    theme: Theme,
) -> Tint {
    if undelivered {
        solid_tint(theme.danger)
    } else if queued {
        solid_tint(theme.warning)
    } else {
        match status {
            ChatIndicator::Working => solid_tint(theme.busy),
            ChatIndicator::AwaitingInput => solid_tint(theme.warning),
            ChatIndicator::Errored => solid_tint(theme.danger),
            ChatIndicator::Completed => solid_tint(theme.success),
            ChatIndicator::Idle => Tint { color: theme.text_muted, percent: 45 },
        }
    }
}

pub fn status_color(status: ChatIndicator, queued: bool, undelivered: bool, theme: &Theme) -> (r:
    Tint)
    ensures
        r == badge_tint(status, queued, undelivered, *theme),
{
    if undelivered {
        return solid(theme.danger);
    }
    if queued {
        return solid(theme.warning);
    }
    match status {
        ChatIndicator::Working => solid(theme.busy),
        ChatIndicator::AwaitingInput => solid(theme.warning),
        ChatIndicator::Errored => solid(theme.danger),
        ChatIndicator::Completed => solid(theme.success),
        ChatIndicator::Idle => Tint { color: theme.text_muted, percent: 45 },
    }
}

/// What one avatar is drawn with.
#[derive(Debug, Clone, Copy, PartialEq, Eq, Structural)]
pub struct Buddy {
    pub image: BotImage,
    pub blink_image: BotImage,
    pub status: ChatIndicator,
    pub hovered: bool,
    pub status_color: Tint,
    pub ring_color: Tint,
    pub offset: u16,
}

/// What a new frame asks of a drawn avatar.
#[derive(Debug, Clone, Copy, PartialEq, Eq, Structural)]
pub struct BuddyChange {
    /// The avatar repaints.
    pub repaint: bool,
    /// The hover animation starts now.
    pub hover_starts: bool,
}

/// Takes over the next frame's inputs; `resized` says whether the avatar's
/// size changed. Only a change repaints, and only entering restarts the hover
/// animation.
pub fn update_buddy(drawn: &mut Buddy, next: Buddy, resized: bool) -> (r: BuddyChange)
    ensures
        *final(drawn) == next,
        r.repaint == (*old(drawn) != next || resized),
        r.hover_starts == (next.hovered && !old(drawn).hovered),
{
    let hover_starts: bool = next.hovered && !drawn.hovered;
    let changed: bool = *drawn != next || resized;
    *drawn = next;
    BuddyChange { repaint: changed, hover_starts }
}

/// How the body of an avatar moves.
#[derive(Debug, Clone, Copy, PartialEq, Eq, Structural)]
pub enum BodyMotion {
    Still,
    /// Bobs while working.
    Bob,
    /// Shakes after an error.
    Shake,
}

/// Which animations an avatar runs.
#[derive(Debug, Clone, Copy, PartialEq, Eq, Structural)]
pub struct Animation {
    pub body: BodyMotion,
    pub blinks: bool,
    pub wiggles: bool,
    /// The status badge pulses.
    pub pulses: bool,
    /// The status badge shows at all.
    pub badge: bool,
}

/// Chooses the animations of an avatar. Reduced motion stills everything, and
/// an idle session has no badge.
pub fn animation(
    status: ChatIndicator,
    hovered: bool,
    hover_began: bool,
    reduced_motion: bool,
) -> (r: Animation)
    ensures
        r.body == (if reduced_motion {
            BodyMotion::Still
        } else if status is Working {
            BodyMotion::Bob
        } else if status is Errored {
            BodyMotion::Shake
        } else {
            BodyMotion::Still
        }),
        r.blinks == !reduced_motion,
        r.wiggles == (hovered && hover_began && !reduced_motion),
        r.pulses == (status is Working && !reduced_motion),
        r.badge == !(status is Idle),
{
    let body: BodyMotion = match status {
        ChatIndicator::Working if !reduced_motion => BodyMotion::Bob,
        ChatIndicator::Errored if !reduced_motion => BodyMotion::Shake,
        _ => BodyMotion::Still,
    };
    Animation {
        body,
        blinks: !reduced_motion,
        wiggles: hovered && !reduced_motion && hover_began,
        pulses: status == ChatIndicator::Working && !reduced_motion,
        badge: status != ChatIndicator::Idle,
    }
}

} // verus!
