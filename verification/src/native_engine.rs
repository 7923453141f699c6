//! The texts the native ABI hands out for one engine instance: the result
//! of the last call and the last snapshot, with the call's result code. The
//! engine itself is driven by the caller, which reports each outcome here.
use vstd::prelude::*;
use crate::bridge::{BridgeResult, BridgeSnapshot};
use crate::native_json::{
    bridge_result_json, bridge_snapshot_json, empty_snapshot_json, error_result, option_view,
    spec_bridge_result_json, spec_bridge_snapshot_json, spec_empty_snapshot_json, success_result,
};
use crate::runtime_support::{ABI_CLOSED, ABI_ERROR, ABI_OK};

verus! {

/// One engine instance as the ABI sees it.
pub struct NativeEngineState {
    pub closed: bool,
    pub last_result_json: String,
    pub snapshot_json: String,
}

impl NativeEngineState {
    /// A freshly started engine: initialized, with the empty snapshot.
    pub fn new() -> (r: Self)
        ensures
            !r.closed,
            r.last_result_json@ == spec_bridge_result_json(true, "initialized"@, None),
            r.snapshot_json@ == spec_empty_snapshot_json(),
    {
        NativeEngineState {
            closed: false,
            last_result_json: success_result("initialized"),
            snapshot_json: empty_snapshot_json(),
        }
    }

    /// Whether a command may reach the engine; a closed engine records why
    /// not and answers `ABI_CLOSED`.
    pub fn admit_command(&mut self) -> (r: Option<i32>)
        ensures
            old(self).closed ==> r == Some(ABI_CLOSED) && final(self).last_result_json@ == spec_bridge_result_json(
                false,
                "error"@,
                Some("native engine is closed"@),
            ) && final(self).snapshot_json == old(self).snapshot_json && final(self).closed,
            !old(self).closed ==> r is None && *final(self) == *old(self),
    {
        if self.closed {
            self.last_result_json = error_result("native engine is closed");
            return Some(ABI_CLOSED);
        }
        None
    }

    /// The engine answered a command: its result is recorded; a success
    /// asks for a snapshot refresh.
    pub fn command_answered(&mut self, result: &BridgeResult) -> (r: i32)
        ensures
            final(self).last_result_json@ == spec_bridge_result_json(result.ok, result.kind@, option_view(result.error)),
            final(self).snapshot_json == old(self).snapshot_json,
            final(self).closed == old(self).closed,
            r == if result.ok { ABI_OK } else { ABI_ERROR },
    {
        self.last_result_json = bridge_result_json(result);
        if result.ok {
            ABI_OK
        } else {
            ABI_ERROR
        }
    }

    /// The engine answered a snapshot read: a snapshot replaces the last
    /// one, an error becomes the last result. A closed engine reads nothing.
    pub fn snapshot_answered(&mut self, snapshot: Result<&BridgeSnapshot, String>) -> (r: i32)
        ensures
            old(self).closed ==> r == ABI_CLOSED && *final(self) == *old(self),
            !old(self).closed ==> match snapshot {
                Ok(s) => r == ABI_OK && final(self).snapshot_json@ == spec_bridge_snapshot_json(*s)
                    && final(self).last_result_json == old(self).last_result_json,
                Err(e) => r == ABI_ERROR && final(self).last_result_json@ == spec_bridge_result_json(
                    false,
                    "error"@,
                    Some(e@),
                ) && final(self).snapshot_json == old(self).snapshot_json,
            },
            final(self).closed == old(self).closed,
    {
        if self.closed {
            return ABI_CLOSED;
        }
        match snapshot {
            Ok(s) => {
                self.snapshot_json = bridge_snapshot_json(s);
                ABI_OK
            },
            Err(e) => {
                self.last_result_json = error_result(e.as_str());
                ABI_ERROR
            },
        }
    }

    /// Closing: the first close shuts the engine down and reports how that
    /// went (`shutdown` is its error, if any); later closes succeed at once.
    /// Says whether the engine must be shut down now.
    pub fn begin_close(&mut self) -> (shut_down_now: bool)
        ensures
            shut_down_now == !old(self).closed,
            final(self).closed,
            final(self).last_result_json == old(self).last_result_json,
            final(self).snapshot_json == old(self).snapshot_json,
    {
        let first = !self.closed;
        self.closed = true;
        first
    }

    /// The engine's shutdown finished, with its error if it failed.
    pub fn shutdown_finished(&mut self, error: Option<String>) -> (r: i32)
        ensures
            match error {
                None => r == ABI_OK && *final(self) == *old(self),
                Some(e) => r == ABI_ERROR && final(self).last_result_json@ == spec_bridge_result_json(
                    false,
                    "error"@,
                    Some(e@),
                ) && final(self).snapshot_json == old(self).snapshot_json && final(self).closed
                    == old(self).closed,
            },
    {
        match error {
            None => ABI_OK,
            Some(e) => {
                self.last_result_json = error_result(e.as_str());
                ABI_ERROR
            },
        }
    }
}

} // verus!
