//! Session context: user state, callback registry, option forwarding, and
//! exactly-once reclamation of the user-state box.

use std::cell::Cell;
use std::rc::Rc;

use utp::callback::UtpCallbackType;
use utp::ctx::OptionCommand;
use utp::ctx::UtpContext;
use utp::ctx::UtpHandler;
use utp::ctx::UtpUserData;
use utp::ctx::UTP_LOG_DEBUG;

const ALL_KINDS: [UtpCallbackType; 16] = [
    UtpCallbackType::OnFirewall,
    UtpCallbackType::OnAccept,
    UtpCallbackType::OnConnect,
    UtpCallbackType::OnError,
    UtpCallbackType::OnRead,
    UtpCallbackType::OnOverheadStatistics,
    UtpCallbackType::OnStateChange,
    UtpCallbackType::GetReadBufferSize,
    UtpCallbackType::OnDelaySample,
    UtpCallbackType::GetUdpMtu,
    UtpCallbackType::GetUdpOverhead,
    UtpCallbackType::GetMilliseconds,
    UtpCallbackType::GetMicroseconds,
    UtpCallbackType::GetRandom,
    UtpCallbackType::Log,
    UtpCallbackType::Sendto,
];

#[test]
fn every_kind_starts_with_the_nop_handler() {
    let ctx: UtpContext<u32, u64> = UtpContext::new(0);
    for kind in ALL_KINDS {
        assert!(matches!(ctx.handler(kind), UtpHandler::Nop));
    }
}

#[test]
fn set_callback_replaces_only_the_given_kind() {
    let mut ctx: UtpContext<u32, u64> = UtpContext::new(0);
    ctx.set_callback(UtpCallbackType::OnRead, 7);
    for kind in ALL_KINDS {
        if kind == UtpCallbackType::OnRead {
            assert!(matches!(ctx.handler(kind), UtpHandler::Custom(7)));
        } else {
            assert!(matches!(ctx.handler(kind), UtpHandler::Nop));
        }
    }
}

#[test]
fn set_callback_overwrites_a_previous_handler() {
    let mut ctx: UtpContext<u32, u64> = UtpContext::new(0);
    ctx.set_callback(UtpCallbackType::Sendto, 1);
    ctx.set_callback(UtpCallbackType::Sendto, 2);
    assert!(matches!(
        ctx.handler(UtpCallbackType::Sendto),
        UtpHandler::Custom(2)
    ));
}

#[test]
fn user_data_is_stored_and_mutable() {
    let mut ctx: UtpContext<String, u64> = UtpContext::new(String::from("a"));
    assert_eq!(ctx.user_data(), "a");
    ctx.user_data_mut().push('b');
    assert_eq!(ctx.user_data(), "ab");
}

#[test]
fn mutating_user_data_keeps_the_registry() {
    let mut ctx: UtpContext<u32, u64> = UtpContext::new(1);
    ctx.set_callback(UtpCallbackType::OnError, 5);
    *ctx.user_data_mut() = 2;
    assert_eq!(*ctx.user_data(), 2);
    assert!(matches!(
        ctx.handler(UtpCallbackType::OnError),
        UtpHandler::Custom(5)
    ));
}

#[test]
fn set_option_forwards_the_given_pair() {
    let mut ctx: UtpContext<u32, u64> = UtpContext::new(0);
    let cmd = ctx.set_option(20, -3);
    assert_eq!(cmd, OptionCommand { opt: 20, val: -3 });
}

#[test]
fn set_debug_log_forwards_the_debug_option() {
    let mut ctx: UtpContext<u32, u64> = UtpContext::new(0);
    let on = ctx.set_debug_log(true);
    assert_eq!(on, OptionCommand { opt: UTP_LOG_DEBUG, val: 1 });
    let off = ctx.set_debug_log(false);
    assert_eq!(off, OptionCommand { opt: UTP_LOG_DEBUG, val: 0 });
}

/// Counts how often a session-state value is dropped.
struct DropCounter {
    drops: Rc<Cell<u32>>,
}

impl Drop for DropCounter {
    fn drop(&mut self) {
        self.drops.set(self.drops.get() + 1);
    }
}

#[test]
fn destroying_the_context_reclaims_the_state_exactly_once() {
    let drops = Rc::new(Cell::new(0));
    let ctx: UtpContext<DropCounter, u64> =
        UtpContext::new(DropCounter { drops: Rc::clone(&drops) });
    assert_eq!(drops.get(), 0);
    let state = ctx.destroy();
    assert_eq!(drops.get(), 0);
    drop(state);
    assert_eq!(drops.get(), 1);
}

#[test]
fn dropping_the_context_reclaims_the_state_exactly_once() {
    let drops = Rc::new(Cell::new(0));
    let ctx: UtpContext<DropCounter, u64> =
        UtpContext::new(DropCounter { drops: Rc::clone(&drops) });
    drop(ctx);
    assert_eq!(drops.get(), 1);
}

#[test]
fn the_user_state_box_defaults_every_slot() {
    let boxed: UtpUserData<u8, u64> = UtpUserData::new(9);
    assert_eq!(*boxed.data(), 9);
    for kind in ALL_KINDS {
        assert!(matches!(boxed.handler(kind), UtpHandler::Nop));
    }
}

#[test]
fn two_contexts_hold_independent_state() {
    let mut a: UtpContext<u32, u64> = UtpContext::new(1);
    let b: UtpContext<u32, u64> = UtpContext::new(2);
    a.set_callback(UtpCallbackType::OnAccept, 4);
    *a.user_data_mut() = 10;
    assert_eq!(*a.user_data(), 10);
    assert_eq!(*b.user_data(), 2);
    assert!(matches!(b.handler(UtpCallbackType::OnAccept), UtpHandler::Nop));
}
