//! Session context, user-state box and callback registry.
//!
//! A session context stands for one native engine instance. All mutable
//! session state lives in the Session User-State Box: the caller's own state
//! value, of a shape fixed when the context is made, and the callback
//! registry. The box is created with the context, owned by it exclusively for
//! the context's whole lifetime, and reclaimed exactly once when the context
//! is destroyed.
//!
//! The registry holds one handler slot per callback kind, every slot filled
//! from the start — with an explicit no-op until the caller installs a
//! handler — so the dispatch reentry point never encounters a missing entry.

use vstd::prelude::*;

use crate::callback::UtpCallbackType;

verus! {

/// Engine option: normal-level logging.
pub const UTP_LOG_NORMAL: u32 = 16;

/// Engine option: MTU-related logging.
pub const UTP_LOG_MTU: u32 = 17;

/// Engine option: debug logging.
pub const UTP_LOG_DEBUG: u32 = 18;

/// Engine option: send-buffer size.
pub const UTP_SNDBUF: u32 = 19;

/// Engine option: receive-buffer size.
pub const UTP_RCVBUF: u32 = 20;

/// Engine option: target delay for congestion control.
pub const UTP_TARGET_DELAY: u32 = 21;

/// The handler registered for one callback kind: the caller's own handler, or
/// the explicit do-nothing default every slot starts with. A dispatch of the
/// default returns `0` to the engine and does nothing else.
pub enum UtpHandler<H> {
    /// The do-nothing default.
    Nop,
    /// A caller-installed handler.
    Custom(H),
}

/// One handler slot per callback kind; every kind has a handler at all times.
pub struct UtpCallbackRegistry<H> {
    on_firewall: UtpHandler<H>,
    on_accept: UtpHandler<H>,
    on_connect: UtpHandler<H>,
    on_error: UtpHandler<H>,
    on_read: UtpHandler<H>,
    on_overhead_statistics: UtpHandler<H>,
    on_state_change: UtpHandler<H>,
    get_read_buffer_size: UtpHandler<H>,
    on_delay_sample: UtpHandler<H>,
    get_udp_mtu: UtpHandler<H>,
    get_udp_overhead: UtpHandler<H>,
    get_milliseconds: UtpHandler<H>,
    get_microseconds: UtpHandler<H>,
    get_random: UtpHandler<H>,
    log: UtpHandler<H>,
    sendto: UtpHandler<H>,
}

impl<H> UtpCallbackRegistry<H> {
    /// The handler registered for `kind`. Total: every kind always has one.
    pub closed spec fn spec_handler(self, kind: UtpCallbackType) -> UtpHandler<H> {
        match kind {
            UtpCallbackType::OnFirewall => self.on_firewall,
            UtpCallbackType::OnAccept => self.on_accept,
            UtpCallbackType::OnConnect => self.on_connect,
            UtpCallbackType::OnError => self.on_error,
            UtpCallbackType::OnRead => self.on_read,
            UtpCallbackType::OnOverheadStatistics => self.on_overhead_statistics,
            UtpCallbackType::OnStateChange => self.on_state_change,
            UtpCallbackType::GetReadBufferSize => self.get_read_buffer_size,
            UtpCallbackType::OnDelaySample => self.on_delay_sample,
            UtpCallbackType::GetUdpMtu => self.get_udp_mtu,
            UtpCallbackType::GetUdpOverhead => self.get_udp_overhead,
            UtpCallbackType::GetMilliseconds => self.get_milliseconds,
            UtpCallbackType::GetMicroseconds => self.get_microseconds,
            UtpCallbackType::GetRandom => self.get_random,
            UtpCallbackType::Log => self.log,
            UtpCallbackType::Sendto => self.sendto,
        }
    }

    /// A registry with the do-nothing default in every slot.
    pub fn all_nop() -> (r: Self)
        ensures
            forall|k: UtpCallbackType| #[trigger] r.spec_handler(k) is Nop,
    {
        UtpCallbackRegistry {
            on_firewall: UtpHandler::Nop,
            on_accept: UtpHandler::Nop,
            on_connect: UtpHandler::Nop,
            on_error: UtpHandler::Nop,
            on_read: UtpHandler::Nop,
            on_overhead_statistics: UtpHandler::Nop,
            on_state_change: UtpHandler::Nop,
            get_read_buffer_size: UtpHandler::Nop,
            on_delay_sample: UtpHandler::Nop,
            get_udp_mtu: UtpHandler::Nop,
            get_udp_overhead: UtpHandler::Nop,
            get_milliseconds: UtpHandler::Nop,
            get_microseconds: UtpHandler::Nop,
            get_random: UtpHandler::Nop,
            log: UtpHandler::Nop,
            sendto: UtpHandler::Nop,
        }
    }

    /// Replaces the handler for `kind`, overwriting any previous one; the
    /// other kinds keep their handlers.
    pub fn set(&mut self, kind: UtpCallbackType, handler: H)
        ensures
            forall|k: UtpCallbackType| #[trigger]
                final(self).spec_handler(k) == if k == kind {
                    UtpHandler::Custom(handler)
                } else {
                    old(self).spec_handler(k)
                },
    {
        match kind {
            UtpCallbackType::OnFirewall => self.on_firewall = UtpHandler::Custom(handler),
            UtpCallbackType::OnAccept => self.on_accept = UtpHandler::Custom(handler),
            UtpCallbackType::OnConnect => self.on_connect = UtpHandler::Custom(handler),
            UtpCallbackType::OnError => self.on_error = UtpHandler::Custom(handler),
            UtpCallbackType::OnRead => self.on_read = UtpHandler::Custom(handler),
            UtpCallbackType::OnOverheadStatistics => self.on_overhead_statistics
                = UtpHandler::Custom(handler),
            UtpCallbackType::OnStateChange => self.on_state_change = UtpHandler::Custom(handler),
            UtpCallbackType::GetReadBufferSize => self.get_read_buffer_size = UtpHandler::Custom(
                handler,
            ),
            UtpCallbackType::OnDelaySample => self.on_delay_sample = UtpHandler::Custom(handler),
            UtpCallbackType::GetUdpMtu => self.get_udp_mtu = UtpHandler::Custom(handler),
            UtpCallbackType::GetUdpOverhead => self.get_udp_overhead = UtpHandler::Custom(handler),
            UtpCallbackType::GetMilliseconds => self.get_milliseconds = UtpHandler::Custom(handler),
            UtpCallbackType::GetMicroseconds => self.get_microseconds = UtpHandler::Custom(handler),
            UtpCallbackType::GetRandom => self.get_random = UtpHandler::Custom(handler),
            UtpCallbackType::Log => self.log = UtpHandler::Custom(handler),
            UtpCallbackType::Sendto => self.sendto = UtpHandler::Custom(handler),
        }
    }

    /// Looks the handler for `kind` up. Never misses: the slot exists for
    /// every kind by construction.
    pub fn get(&self, kind: UtpCallbackType) -> (h: &UtpHandler<H>)
        ensures
            *h == self.spec_handler(kind),
    {
        match kind {
            UtpCallbackType::OnFirewall => &self.on_firewall,
            UtpCallbackType::OnAccept => &self.on_accept,
            UtpCallbackType::OnConnect => &self.on_connect,
            UtpCallbackType::OnError => &self.on_error,
            UtpCallbackType::OnRead => &self.on_read,
            UtpCallbackType::OnOverheadStatistics => &self.on_overhead_statistics,
            UtpCallbackType::OnStateChange => &self.on_state_change,
            UtpCallbackType::GetReadBufferSize => &self.get_read_buffer_size,
            UtpCallbackType::OnDelaySample => &self.on_delay_sample,
            UtpCallbackType::GetUdpMtu => &self.get_udp_mtu,
            UtpCallbackType::GetUdpOverhead => &self.get_udp_overhead,
            UtpCallbackType::GetMilliseconds => &self.get_milliseconds,
            UtpCallbackType::GetMicroseconds => &self.get_microseconds,
            UtpCallbackType::GetRandom => &self.get_random,
            UtpCallbackType::Log => &self.log,
            UtpCallbackType::Sendto => &self.sendto,
        }
    }
}

/// The Session User-State Box: the one heap value associated with an engine
/// instance, holding the caller's session state and the callback registry.
pub struct UtpUserData<T, H> {
    data: T,
    callbacks: UtpCallbackRegistry<H>,
}

impl<T, H> UtpUserData<T, H> {
    /// The caller's session state.
    pub closed spec fn spec_data(self) -> T {
        self.data
    }

    /// The handler registered for `kind`.
    pub closed spec fn spec_handler(self, kind: UtpCallbackType) -> UtpHandler<H> {
        self.callbacks.spec_handler(kind)
    }

    /// Makes the box for a fresh session: the given state, and the do-nothing
    /// default handler in every callback slot.
    pub fn new(data: T) -> (r: Self)
        ensures
            r.spec_data() == data,
            forall|k: UtpCallbackType| #[trigger] r.spec_handler(k) is Nop,
    {
        UtpUserData { data, callbacks: UtpCallbackRegistry::all_nop() }
    }

    /// Returns the caller's session state.
    pub fn data(&self) -> (r: &T)
        ensures
            *r == self.spec_data(),
    {
        &self.data
    }

    /// Looks up the handler to dispatch for `kind`. Guaranteed present: every
    /// kind has a handler at all times.
    pub fn handler(&self, kind: UtpCallbackType) -> (h: &UtpHandler<H>)
        ensures
            *h == self.spec_handler(kind),
    {
        self.callbacks.get(kind)
    }
}

/// A pair to forward to the engine's option setter: which option, and the
/// value to set it to.
#[derive(Clone, Copy, Debug, PartialEq, Eq, Structural)]
pub struct OptionCommand {
    /// The engine-defined option key.
    pub opt: u32,
    /// The value to set.
    pub val: i32,
}

/// The session context: the top-level object standing for one engine
/// instance.
///
/// Exactly one Session User-State Box belongs to the context, set at
/// construction and never reassigned; destroying the context reclaims it in
/// the same operation, exactly once. Callback dispatch happens synchronously
/// inside whichever operation fed the engine, so the context is
/// single-threaded by design and takes no locks.
pub struct UtpContext<T, H> {
    user_data: UtpUserData<T, H>,
}

impl<T, H> UtpContext<T, H> {
    /// The caller's session state.
    pub closed spec fn spec_data(self) -> T {
        self.user_data.spec_data()
    }

    /// The handler registered for `kind`.
    pub closed spec fn spec_handler(self, kind: UtpCallbackType) -> UtpHandler<H> {
        self.user_data.spec_handler(kind)
    }

    /// Makes a session context holding `user_data`, with the do-nothing
    /// default in every callback slot.
    pub fn new(user_data: T) -> (r: Self)
        ensures
            r.spec_data() == user_data,
            forall|k: UtpCallbackType| #[trigger] r.spec_handler(k) is Nop,
    {
        UtpContext { user_data: UtpUserData::new(user_data) }
    }

    /// Returns the caller's session state.
    pub fn user_data(&self) -> (r: &T)
        ensures
            *r == self.spec_data(),
    {
        self.user_data.data()
    }

    /// Returns the caller's session state for mutation. The callback registry
    /// is untouched, whatever the caller writes through the reference.
    pub fn user_data_mut(&mut self) -> (r: &mut T)
        ensures
            *r == old(self).spec_data(),
            final(self).spec_data() == *final(r),
            forall|k: UtpCallbackType| #[trigger]
                final(self).spec_handler(k) == old(self).spec_handler(k),
    {
        &mut self.user_data.data
    }

    /// Replaces the handler for `cb_type`. Takes effect for all subsequent
    /// dispatches, overwrites any previous handler for that kind, and leaves
    /// every other kind and the session state untouched.
    pub fn set_callback(&mut self, cb_type: UtpCallbackType, cb: H)
        ensures
            final(self).spec_data() == old(self).spec_data(),
            forall|k: UtpCallbackType| #[trigger]
                final(self).spec_handler(k) == if k == cb_type {
                    UtpHandler::Custom(cb)
                } else {
                    old(self).spec_handler(k)
                },
    {
        self.user_data.callbacks.set(cb_type, cb);
    }

    /// Looks up the handler to dispatch for `kind` — the registry step of the
    /// reentry point. Never misses an entry: every kind has a handler, the
    /// do-nothing default until one is installed.
    pub fn handler(&self, kind: UtpCallbackType) -> (h: &UtpHandler<H>)
        ensures
            *h == self.spec_handler(kind),
    {
        self.user_data.handler(kind)
    }

    /// Forwards one engine option: the returned command is what the driving
    /// shell hands to the engine's option setter. The side effect is entirely
    /// inside the engine; no local session state changes.
    pub fn set_option(&mut self, opt: u32, val: i32) -> (cmd: OptionCommand)
        ensures
            cmd == (OptionCommand { opt, val }),
            *final(self) == *old(self),
    {
        OptionCommand { opt, val }
    }

    /// Enables or disables the engine's debug logging, through the
    /// debug-logging option.
    pub fn set_debug_log(&mut self, debug_log: bool) -> (cmd: OptionCommand)
        ensures
            cmd == (OptionCommand { opt: UTP_LOG_DEBUG, val: if debug_log { 1i32 } else { 0i32 } }),
            *final(self) == *old(self),
    {
        self.set_option(UTP_LOG_DEBUG, if debug_log { 1 } else { 0 })
    }

    /// Destroys the context: gives the Session User-State Box's state back to
    /// the caller. Consuming the context is the only release path, so the box
    /// is reclaimed exactly once — never twice, never leaked — and the
    /// driving shell releases the native engine instance in the same
    /// operation.
    pub fn destroy(self) -> (data: T)
        ensures
            data == self.spec_data(),
    {
        self.user_data.data
    }
}

} // verus!
