//! Settings: their defaults, the tunnel reconnect policy, where the files of the
//! application live, and how a saved file keeps what its owner wrote into it.

use vstd::arithmetic::power2::{lemma_pow2_strictly_increases, lemma_pow2_unfold, pow2};
use vstd::prelude::*;

use crate::text::{decimal, format_u64};

pub mod merge;
pub mod paths;
pub mod save;


verus! {

/// How the interface looks.
#[derive(Debug)]
pub struct AppearanceConfig {
    pub show_detail_panel: bool,
    pub date_format: String,
    /// Skip all motion: every surface jumps straight to its final state.
    pub disable_animation: bool,
    /// Ask before quitting.
    pub confirm_quit: bool,
    /// Columns in the identities grid; 0 fits them by itself.
    pub identity_columns: usize,
    /// Show the detected system's logo in the host detail view.
    pub os_logo: bool,
    /// Paint a solid background behind the whole interface.
    pub opaque_background: bool,
}

/// Whether, and how much, the output of sessions is logged.
#[derive(Debug)]
pub struct SessionLoggingConfig {
    /// Log sessions unless their host says otherwise.
    pub enabled: bool,
    pub max_file_bytes: u64,
    pub retention_files: usize,
}

/// When and how often a tunnel that died is started again.
#[derive(Debug)]
pub struct TunnelReconnectConfig {
    /// Consecutive attempts after an unexpected exit; 0 sets no limit.
    pub max_attempts: u32,
    pub initial_delay_ms: u64,
    pub max_delay_ms: u64,
    /// The bits of the double by which the delay may vary around its base
    /// (0.25 is a quarter either way). Nothing here computes with it.
    pub jitter_ratio_bits: u64,
    /// A tunnel must stay up this long before its reconnect counts as a success.
    pub stable_secs: u64,
}

/// All settings but the key bindings, which the caller keeps.
#[derive(Debug)]
pub struct AppConfig {
    pub appearance: AppearanceConfig,
    pub session_logging: SessionLoggingConfig,
    pub tunnel_reconnect: TunnelReconnectConfig,
}

/// The largest log file before it is rotated: ten mebibytes.
pub const DEFAULT_SESSION_LOG_MAX_BYTES: u64 = 10_485_760;

/// Log files kept for each host.
pub const DEFAULT_SESSION_LOG_RETENTION: usize = 50;

pub const DEFAULT_TUNNEL_RECONNECT_MAX_ATTEMPTS: u32 = 12;

pub const DEFAULT_TUNNEL_RECONNECT_INITIAL_MS: u64 = 1_000;

pub const DEFAULT_TUNNEL_RECONNECT_MAX_MS: u64 = 60_000;

/// The bits of the double 0.25.
pub const DEFAULT_TUNNEL_RECONNECT_JITTER_BITS: u64 = 0x3FD0_0000_0000_0000;

pub const DEFAULT_TUNNEL_STABLE_SECS: u64 = 5;

/// The format in which dates are shown unless the settings say otherwise.
pub fn default_date_format() -> (r: String)
    ensures
        r@ == "%Y-%m-%d %H:%M"@,
{
    "%Y-%m-%d %H:%M".to_owned()
}

impl AppearanceConfig {
    /// The built-in appearance.
    pub open spec fn is_default(self) -> bool {
        &&& self.show_detail_panel
        &&& self.date_format@ == "%Y-%m-%d %H:%M"@
        &&& !self.disable_animation
        &&& self.confirm_quit
        &&& self.identity_columns == 0
        &&& self.os_logo
        &&& !self.opaque_background
    }
}

impl Default for AppearanceConfig {
    fn default() -> (r: Self)
        ensures
            r.is_default(),
    {
        AppearanceConfig {
            show_detail_panel: true,
            date_format: default_date_format(),
            disable_animation: false,
            confirm_quit: true,
            identity_columns: 0,
            os_logo: true,
            opaque_background: false,
        }
    }
}

impl SessionLoggingConfig {
    /// The built-in logging policy: off.
    pub open spec fn is_default(self) -> bool {
        &&& !self.enabled
        &&& self.max_file_bytes == DEFAULT_SESSION_LOG_MAX_BYTES
        &&& self.retention_files == DEFAULT_SESSION_LOG_RETENTION
    }
}

impl Default for SessionLoggingConfig {
    fn default() -> (r: Self)
        ensures
            r.is_default(),
    {
        SessionLoggingConfig {
            enabled: false,
            max_file_bytes: DEFAULT_SESSION_LOG_MAX_BYTES,
            retention_files: DEFAULT_SESSION_LOG_RETENTION,
        }
    }
}

impl Default for TunnelReconnectConfig {
    fn default() -> (r: Self)
        ensures
            r == Self::built_in(),
    {
        TunnelReconnectConfig {
            max_attempts: DEFAULT_TUNNEL_RECONNECT_MAX_ATTEMPTS,
            initial_delay_ms: DEFAULT_TUNNEL_RECONNECT_INITIAL_MS,
            max_delay_ms: DEFAULT_TUNNEL_RECONNECT_MAX_MS,
            jitter_ratio_bits: DEFAULT_TUNNEL_RECONNECT_JITTER_BITS,
            stable_secs: DEFAULT_TUNNEL_STABLE_SECS,
        }
    }
}

impl Default for AppConfig {
    fn default() -> (r: Self)
        ensures
            r.appearance.is_default(),
            r.session_logging.is_default(),
            r.tunnel_reconnect == TunnelReconnectConfig::built_in(),
    {
        AppConfig {
            appearance: AppearanceConfig::default(),
            session_logging: SessionLoggingConfig::default(),
            tunnel_reconnect: TunnelReconnectConfig::default(),
        }
    }
}

/// The attempt counter after a tunnel ended: a run of at least `stable_secs`
/// starts the count over, a shorter one adds to it.
pub fn tunnel_failure_attempt(current: u32, uptime_secs: u64, stable_secs: u64) -> (r: u32)
    ensures
        uptime_secs >= stable_secs ==> r == 0,
        uptime_secs < stable_secs && current < u32::MAX ==> r == current + 1,
        uptime_secs < stable_secs && current == u32::MAX ==> r == u32::MAX,
{
    if uptime_secs >= stable_secs {
        0
    } else {
        current.saturating_add(1)
    }
}

/// A 64-bit pattern read as a signed number.
pub open spec fn signed(v: u64) -> int {
    if v <= i64::MAX {
        v as int
    } else {
        v - 0x1_0000_0000_0000_0000
    }
}

/// A signed number read as an unsigned 64-bit pattern.
pub open spec fn unsigned(v: i64) -> int {
    if v >= 0 {
        v as int
    } else {
        v + 0x1_0000_0000_0000_0000
    }
}

fn as_signed(v: u64) -> (r: i64)
    ensures
        r == signed(v),
{
    if v <= i64::MAX as u64 {
        v as i64
    } else {
        -((u64::MAX - v) as i64) - 1
    }
}

fn as_unsigned(v: i64) -> (r: u64)
    ensures
        r == unsigned(v),
{
    if v >= 0 {
        v as u64
    } else {
        u64::MAX - ((-(v + 1)) as u64)
    }
}

/// The nearest number to `v` in `low..=high`.
pub open spec fn bounded(v: int, low: int, high: int) -> int {
    if v < low {
        low
    } else if v > high {
        high
    } else {
        v
    }
}

impl TunnelReconnectConfig {
    /// The built-in reconnect policy.
    pub open spec fn built_in() -> Self {
        TunnelReconnectConfig {
            max_attempts: DEFAULT_TUNNEL_RECONNECT_MAX_ATTEMPTS,
            initial_delay_ms: DEFAULT_TUNNEL_RECONNECT_INITIAL_MS,
            max_delay_ms: DEFAULT_TUNNEL_RECONNECT_MAX_MS,
            jitter_ratio_bits: DEFAULT_TUNNEL_RECONNECT_JITTER_BITS,
            stable_secs: DEFAULT_TUNNEL_STABLE_SECS,
        }
    }

    /// What the settings page shows in a row; the jitter row shows a double and
    /// is left to the caller.
    pub open spec fn shown(self, row: int) -> Seq<char> {
        if row == 0 {
            if self.max_attempts == 0 {
                "unlimited"@
            } else {
                decimal(self.max_attempts as nat)
            }
        } else if row == 1 {
            decimal((self.initial_delay_ms / 1000) as nat) + " s"@
        } else if row == 2 {
            decimal((self.max_delay_ms / 1000) as nat) + " s"@
        } else if row == 3 {
            decimal(self.stable_secs as nat) + " s"@
        } else {
            Seq::empty()
        }
    }

    /// The value of a row before it is bounded, after a nudge by `delta` steps.
    pub open spec fn nudged(self, row: int, delta: int) -> int {
        if row == 0 {
            self.max_attempts + delta
        } else if row == 1 {
            signed(self.initial_delay_ms) + delta * 1_000
        } else if row == 2 {
            signed(self.max_delay_ms) + delta * 5_000
        } else {
            signed(self.stable_secs) + delta
        }
    }

    /// The settings after a nudge. A delay that passes the other one takes it along.
    pub open spec fn adjusted(self, row: int, delta: int) -> Self {
        let next = self.nudged(row, delta);
        if row == 0 {
            TunnelReconnectConfig { max_attempts: bounded(next, 0, 999) as u32, ..self }
        } else if row == 1 {
            let initial = bounded(next, 1_000, 300_000) as u64;
            TunnelReconnectConfig {
                initial_delay_ms: initial,
                max_delay_ms: if initial > self.max_delay_ms {
                    initial
                } else {
                    self.max_delay_ms
                },
                ..self
            }
        } else if row == 2 {
            let largest = bounded(next, 5_000, 600_000) as u64;
            TunnelReconnectConfig {
                max_delay_ms: largest,
                initial_delay_ms: if largest < self.initial_delay_ms {
                    largest
                } else {
                    self.initial_delay_ms
                },
                ..self
            }
        } else if row == 3 {
            TunnelReconnectConfig { stable_secs: bounded(next, 1, 120) as u64, ..self }
        } else {
            self
        }
    }

    /// The settings with one row back at its built-in value.
    pub open spec fn with_reset(self, row: int) -> Self {
        let d = Self::built_in();
        if row == 0 {
            TunnelReconnectConfig { max_attempts: d.max_attempts, ..self }
        } else if row == 1 {
            TunnelReconnectConfig { initial_delay_ms: d.initial_delay_ms, ..self }
        } else if row == 2 {
            TunnelReconnectConfig { max_delay_ms: d.max_delay_ms, ..self }
        } else if row == 3 {
            TunnelReconnectConfig { stable_secs: d.stable_secs, ..self }
        } else if row == 4 {
            TunnelReconnectConfig { jitter_ratio_bits: d.jitter_ratio_bits, ..self }
        } else {
            self
        }
    }

    /// The text of settings row `row`. Row 4 is the jitter ratio, a double, which
    /// the caller renders.
    pub fn display_field(&self, row: usize) -> (r: String)
        requires
            row != 4,
        ensures
            r@ == self.shown(row as int),
    {
        if row == 0 {
            if self.max_attempts == 0 {
                "unlimited".to_owned()
            } else {
                format_u64(self.max_attempts as u64)
            }
        } else if row == 1 {
            let mut r = format_u64(self.initial_delay_ms / 1000);
            r.push_str(" s");
            r
        } else if row == 2 {
            let mut r = format_u64(self.max_delay_ms / 1000);
            r.push_str(" s");
            r
        } else if row == 3 {
            let mut r = format_u64(self.stable_secs);
            r.push_str(" s");
            r
        } else {
            String::new()
        }
    }

    /// Nudge row `row` by `delta` steps and keep it within its bounds. Row 4 is the
    /// jitter ratio, a double, which the caller nudges.
    pub fn adjust_field(&mut self, row: usize, delta: i32)
        requires
            row != 4,
            row <= 3 ==> i64::MIN <= old(self).nudged(row as int, delta as int) <= i64::MAX,
        ensures
            *final(self) == old(self).adjusted(row as int, delta as int),
    {
        if row == 0 {
            let next: i64 = self.max_attempts as i64 + delta as i64;
            self.max_attempts =
            (if next < 0 {
                0i64
            } else if next > 999 {
                999
            } else {
                next
            }) as u32;
        } else if row == 1 {
            let next: i64 = as_signed(self.initial_delay_ms) + delta as i64 * 1_000;
            self.initial_delay_ms = bound_delay(next, 1_000, 300_000);
            if self.initial_delay_ms > self.max_delay_ms {
                self.max_delay_ms = self.initial_delay_ms;
            }
        } else if row == 2 {
            let next: i64 = as_signed(self.max_delay_ms) + delta as i64 * 5_000;
            self.max_delay_ms = bound_delay(next, 5_000, 600_000);
            if self.max_delay_ms < self.initial_delay_ms {
                self.initial_delay_ms = self.max_delay_ms;
            }
        } else if row == 3 {
            let next: i64 = as_signed(self.stable_secs) + delta as i64;
            self.stable_secs = bound_delay(next, 1, 120);
        }
    }

    /// Put one settings row back at its built-in value.
    pub fn reset_field(&mut self, row: usize)
        ensures
            *final(self) == old(self).with_reset(row as int),
    {
        let d = TunnelReconnectConfig::default();
        if row == 0 {
            self.max_attempts = d.max_attempts;
        } else if row == 1 {
            self.initial_delay_ms = d.initial_delay_ms;
        } else if row == 2 {
            self.max_delay_ms = d.max_delay_ms;
        } else if row == 3 {
            self.stable_secs = d.stable_secs;
        } else if row == 4 {
            self.jitter_ratio_bits = d.jitter_ratio_bits;
        }
    }
}

fn bound_delay(v: i64, low: i64, high: i64) -> (r: u64)
    requires
        0 <= low <= high,
    ensures
        r == bounded(v as int, low as int, high as int),
{
    if v < low {
        low as u64
    } else if v > high {
        high as u64
    } else {
        v as u64
    }
}

/// A nudge of either delay leaves the initial delay no longer than the largest
/// one, whatever they were before, and both of the nudged row's bounds hold.
pub proof fn law_adjust_keeps_delay_order(cfg: TunnelReconnectConfig, row: int, delta: int)
    requires
        row == 1 || row == 2,
    ensures
        cfg.adjusted(row, delta).initial_delay_ms <= cfg.adjusted(row, delta).max_delay_ms,
        row == 1 ==> 1_000 <= cfg.adjusted(row, delta).initial_delay_ms <= 300_000,
        row == 2 ==> 5_000 <= cfg.adjusted(row, delta).max_delay_ms <= 600_000,
{
}

/// A nudge of any row keeps delays that were in order in order.
pub proof fn law_adjust_preserves_order(cfg: TunnelReconnectConfig, row: int, delta: int)
    requires
        cfg.initial_delay_ms <= cfg.max_delay_ms,
    ensures
        cfg.adjusted(row, delta).initial_delay_ms <= cfg.adjusted(row, delta).max_delay_ms,
{
}

/// Whether the delays are within their bounds and in order.
pub open spec fn delays_bounded(cfg: TunnelReconnectConfig) -> bool {
    &&& 1_000 <= cfg.initial_delay_ms <= 300_000
    &&& 5_000 <= cfg.max_delay_ms <= 600_000
    &&& cfg.initial_delay_ms <= cfg.max_delay_ms
}

/// A nudge keeps delays that are within their bounds and in order so, and changes nothing
/// but its own row: by its step, as far as its bounds allow. The other delay moves only
/// where the order asks for it, and then to the nudged one. A row that is none changes
/// nothing. The jitter ratio is no row here.
pub proof fn law_adjust_changes_its_row(cfg: TunnelReconnectConfig, row: int, delta: int)
    requires
        delays_bounded(cfg),
        row != 4,
    ensures
        ({
            let next = cfg.adjusted(row, delta);
            &&& delays_bounded(next)
            &&& next.jitter_ratio_bits == cfg.jitter_ratio_bits
            &&& row == 0 ==> next == (TunnelReconnectConfig {
                max_attempts: bounded(cfg.max_attempts + delta, 0, 999) as u32,
                ..cfg
            })
            &&& row == 1 ==> {
                &&& next.initial_delay_ms == bounded(
                    cfg.initial_delay_ms + 1_000 * delta,
                    1_000,
                    300_000,
                )
                &&& next.max_delay_ms == (if next.initial_delay_ms > cfg.max_delay_ms {
                    next.initial_delay_ms
                } else {
                    cfg.max_delay_ms
                })
            }
            &&& row == 2 ==> {
                &&& next.max_delay_ms == bounded(
                    cfg.max_delay_ms + 5_000 * delta,
                    5_000,
                    600_000,
                )
                &&& next.initial_delay_ms == (if next.max_delay_ms < cfg.initial_delay_ms {
                    next.max_delay_ms
                } else {
                    cfg.initial_delay_ms
                })
            }
            &&& row == 1 || row == 2 ==> next.max_attempts == cfg.max_attempts
                && next.stable_secs == cfg.stable_secs
            &&& row == 3 ==> next == (TunnelReconnectConfig {
                stable_secs: next.stable_secs,
                ..cfg
            }) && 1 <= next.stable_secs <= 120
            &&& row < 0 || row > 4 ==> next == cfg
        }),
{
}

/// The doublings of the initial delay before attempt `attempt`: one less than the
/// attempt, at most twenty, and none for the attempts 0 and 1.
pub open spec fn doublings(attempt: nat) -> nat {
    if attempt <= 1 {
        0
    } else if attempt > 21 {
        20
    } else {
        (attempt - 1) as nat
    }
}

/// The delay before attempt `attempt`, without jitter: the initial delay doubled
/// with each attempt, never more than the largest delay.
pub open spec fn backoff_base(attempt: nat, cfg: TunnelReconnectConfig) -> nat {
    let grown = cfg.initial_delay_ms as nat * pow2(doublings(attempt));
    if grown > cfg.max_delay_ms {
        cfg.max_delay_ms as nat
    } else {
        grown
    }
}

/// The delay before attempt `attempt` in milliseconds, before jitter is applied.
pub fn tunnel_backoff_base(attempt: u32, cfg: &TunnelReconnectConfig) -> (r: u64)
    ensures
        r == backoff_base(attempt as nat, *cfg),
{
    let exp: u32 = if attempt <= 1 {
        0
    } else if attempt > 21 {
        20
    } else {
        attempt - 1
    };
    let mut factor: u128 = 1;
    let mut i: u32 = 0;
    proof {
        vstd::arithmetic::power2::lemma2_to64();
    }
    while i < exp
        invariant
            i <= exp <= 20,
            factor == pow2(i as nat),
            factor <= 0x10_0000,
            pow2(20) == 0x10_0000,
        decreases exp - i,
    {
        proof {
            lemma_pow2_unfold((i + 1) as nat);
            if i + 1 < 20 {
                lemma_pow2_strictly_increases((i + 1) as nat, 20);
            }
        }
        factor = factor * 2;
        i = i + 1;
    }
    let initial: u128 = cfg.initial_delay_ms as u128;
    assert(0 <= initial * factor <= u64::MAX * 0x10_0000) by (nonlinear_arith)
        requires
            initial <= u64::MAX,
            factor <= 0x10_0000,
    ;
    let grown: u128 = initial * factor;
    if grown > cfg.max_delay_ms as u128 {
        cfg.max_delay_ms
    } else {
        grown as u64
    }
}

/// What 64 bits keep of a number.
pub open spec fn wrapped(v: int) -> int {
    v % 0x1_0000_0000_0000_0000
}

/// The jitter step of one attempt of one tunnel, in thousandths of the jitter
/// ratio above its negative: 0 takes the whole ratio off, 1000 changes nothing.
pub open spec fn jitter_step(tunnel_id: i64, attempt: nat) -> int {
    let counted = if attempt == 0 {
        1int
    } else {
        attempt as int
    };
    wrapped(wrapped(wrapped(unsigned(tunnel_id) * 31) + counted) * 1_103_515_245) % 2000
}

/// The jitter step of an attempt. The same attempt of the same tunnel always gets
/// the same one; it is below 2000.
pub fn tunnel_jitter_step(tunnel_id: i64, attempt: u32) -> (r: u64)
    ensures
        r == jitter_step(tunnel_id, attempt as nat),
        r < 2000,
{
    let counted: u64 = if attempt == 0 {
        1
    } else {
        attempt as u64
    };
    let id: u64 = as_unsigned(tunnel_id);
    let hash: u64 = id.wrapping_mul(31).wrapping_add(counted).wrapping_mul(1_103_515_245);
    hash % 2000
}

/// Later attempts never wait less than earlier ones, and none waits longer than
/// the largest delay.
pub proof fn law_backoff_grows_and_caps(first: nat, second: nat, cfg: TunnelReconnectConfig)
    requires
        first <= second,
    ensures
        backoff_base(first, cfg) <= backoff_base(second, cfg),
        backoff_base(second, cfg) <= cfg.max_delay_ms,
{
    let a = doublings(first);
    let b = doublings(second);
    if a < b {
        lemma_pow2_strictly_increases(a, b);
    }
    assert(cfg.initial_delay_ms as nat * pow2(a) <= cfg.initial_delay_ms as nat * pow2(b))
        by (nonlinear_arith)
        requires
            pow2(a) <= pow2(b),
    ;
}

/// The first attempt waits the initial delay, unless the largest one is shorter.
pub proof fn law_first_backoff_is_initial(cfg: TunnelReconnectConfig)
    ensures
        cfg.initial_delay_ms <= cfg.max_delay_ms ==> backoff_base(1, cfg) == cfg.initial_delay_ms,
        cfg.initial_delay_ms > cfg.max_delay_ms ==> backoff_base(1, cfg) == cfg.max_delay_ms,
{
    vstd::arithmetic::power2::lemma2_to64();
    assert(cfg.initial_delay_ms as nat * pow2(0) == cfg.initial_delay_ms) by (nonlinear_arith)
        requires
            pow2(0) == 1,
    ;
}

/// What is said of a settings file that does not parse.
pub open spec fn invalid_config_text(detail: Seq<char>) -> Seq<char> {
    "invalid config.toml: "@ + detail
}

/// What is said of a settings file that does not parse, given what the parser said.
pub fn invalid_config_message(detail: &str) -> (r: String)
    ensures
        r@ == invalid_config_text(detail@),
        r@ == "invalid config.toml: "@ + detail@,
{
    let mut r = "invalid config.toml: ".to_owned();
    r.push_str(detail);
    r
}

/// A bounded number is within its bounds, is the number itself where that is, and the
/// bound that it breaks where it is not.
pub proof fn law_bounded(v: int, low: int, high: int)
    requires
        low <= high,
    ensures
        low <= bounded(v, low, high) <= high,
        low <= v <= high ==> bounded(v, low, high) == v,
        v < low ==> bounded(v, low, high) == low,
        v > high ==> bounded(v, low, high) == high,
{
}

/// The steps of the rows: one attempt, a second of the initial delay, five seconds of the
/// largest one, a second of stability; each row stops at its own bounds.
pub proof fn law_adjust_steps(cfg: TunnelReconnectConfig, delta: int)
    requires
        cfg.initial_delay_ms <= i64::MAX,
        cfg.max_delay_ms <= i64::MAX,
        cfg.stable_secs <= i64::MAX,
    ensures
        0 <= cfg.max_attempts + delta <= 999 ==> cfg.adjusted(0, delta).max_attempts
            == cfg.max_attempts + delta,
        cfg.max_attempts + delta > 999 ==> cfg.adjusted(0, delta).max_attempts == 999,
        cfg.max_attempts + delta < 0 ==> cfg.adjusted(0, delta).max_attempts == 0,
        1_000 <= cfg.initial_delay_ms + 1_000 * delta <= 300_000 ==> cfg.adjusted(
            1,
            delta,
        ).initial_delay_ms == cfg.initial_delay_ms + 1_000 * delta,
        cfg.initial_delay_ms + 1_000 * delta > 300_000 ==> cfg.adjusted(1, delta).initial_delay_ms
            == 300_000,
        cfg.initial_delay_ms + 1_000 * delta < 1_000 ==> cfg.adjusted(1, delta).initial_delay_ms
            == 1_000,
        5_000 <= cfg.max_delay_ms + 5_000 * delta <= 600_000 ==> cfg.adjusted(
            2,
            delta,
        ).max_delay_ms == cfg.max_delay_ms + 5_000 * delta,
        cfg.max_delay_ms + 5_000 * delta > 600_000 ==> cfg.adjusted(2, delta).max_delay_ms
            == 600_000,
        cfg.max_delay_ms + 5_000 * delta < 5_000 ==> cfg.adjusted(2, delta).max_delay_ms == 5_000,
        1 <= cfg.stable_secs + delta <= 120 ==> cfg.adjusted(3, delta).stable_secs
            == cfg.stable_secs + delta,
        cfg.stable_secs + delta > 120 ==> cfg.adjusted(3, delta).stable_secs == 120,
        cfg.stable_secs + delta < 1 ==> cfg.adjusted(3, delta).stable_secs == 1,
{
}

/// A nudge is undone by the opposite one, as long as no bound was met and no delay took
/// the other along.
pub proof fn law_adjust_is_undone(cfg: TunnelReconnectConfig, row: int, delta: int)
    requires
        row == 0 || row == 1 || row == 2 || row == 3,
        delays_bounded(cfg),
        cfg.max_attempts <= 999,
        1 <= cfg.stable_secs <= 120,
        row == 0 ==> 0 <= cfg.max_attempts + delta <= 999,
        row == 1 ==> 1_000 <= cfg.initial_delay_ms + 1_000 * delta <= cfg.max_delay_ms
            && cfg.initial_delay_ms + 1_000 * delta <= 300_000,
        row == 2 ==> cfg.initial_delay_ms <= cfg.max_delay_ms + 5_000 * delta <= 600_000
            && cfg.max_delay_ms + 5_000 * delta >= 5_000,
        row == 3 ==> 1 <= cfg.stable_secs + delta <= 120,
    ensures
        cfg.adjusted(row, delta).adjusted(row, -delta) == cfg,
{
}

/// The built-in settings: twelve attempts, from one second to a minute, a jitter of a
/// quarter, and five seconds of stability; sessions are not logged, and where they are,
/// fifty files of ten mebibytes are kept.
pub proof fn law_built_in_settings(logging: SessionLoggingConfig)
    ensures
        TunnelReconnectConfig::built_in().max_attempts == 12,
        TunnelReconnectConfig::built_in().initial_delay_ms == 1_000,
        TunnelReconnectConfig::built_in().max_delay_ms == 60_000,
        TunnelReconnectConfig::built_in().jitter_ratio_bits == 0x3FD0_0000_0000_0000,
        TunnelReconnectConfig::built_in().stable_secs == 5,
        logging.is_default() ==> !logging.enabled && logging.max_file_bytes == 10 * 1024 * 1024
            && logging.retention_files == 50,
{
}

/// Putting a row back changes that row to its built-in value and nothing else, and doing
/// it twice changes nothing more.
pub proof fn law_reset_changes_its_row(cfg: TunnelReconnectConfig, row: int)
    ensures
        ({
            let r = cfg.with_reset(row);
            &&& r.max_attempts == (if row == 0 {
                12
            } else {
                cfg.max_attempts
            })
            &&& r.initial_delay_ms == (if row == 1 {
                1_000
            } else {
                cfg.initial_delay_ms
            })
            &&& r.max_delay_ms == (if row == 2 {
                60_000
            } else {
                cfg.max_delay_ms
            })
            &&& r.stable_secs == (if row == 3 {
                5
            } else {
                cfg.stable_secs
            })
            &&& r.jitter_ratio_bits == (if row == 4 {
                0x3FD0_0000_0000_0000
            } else {
                cfg.jitter_ratio_bits
            })
            &&& r.with_reset(row) == r
        }),
{
}

/// A row shows its own value: no attempts are no limit, delays are shown in whole
/// seconds, and another row's value does not show.
pub proof fn law_row_shows_its_value(cfg: TunnelReconnectConfig, other: TunnelReconnectConfig)
    ensures
        cfg.max_attempts == 0 ==> cfg.shown(0) == "unlimited"@,
        cfg.max_attempts > 0 ==> cfg.shown(0) == decimal(cfg.max_attempts as nat),
        forall|s: nat|
            s * 1_000 <= cfg.initial_delay_ms < s * 1_000 + 1_000 ==> cfg.shown(1)
                == #[trigger] decimal(s) + " s"@,
        forall|s: nat|
            s * 1_000 <= cfg.max_delay_ms < s * 1_000 + 1_000 ==> cfg.shown(2)
                == #[trigger] decimal(s) + " s"@,
        cfg.shown(3) == decimal(cfg.stable_secs as nat) + " s"@,
        cfg.shown(5).len() == 0,
        cfg.max_attempts == other.max_attempts ==> cfg.shown(0) == other.shown(0),
        cfg.initial_delay_ms == other.initial_delay_ms ==> cfg.shown(1) == other.shown(1),
        cfg.max_delay_ms == other.max_delay_ms ==> cfg.shown(2) == other.shown(2),
        cfg.stable_secs == other.stable_secs ==> cfg.shown(3) == other.shown(3),
{
}

/// Every attempt waits twice as long as the one before it, up to the largest delay; from
/// the twenty-first attempt on the delay no longer grows.
pub proof fn law_backoff_doubles(attempt: nat, cfg: TunnelReconnectConfig)
    requires
        attempt >= 1,
    ensures
        attempt <= 20 ==> backoff_base(attempt + 1, cfg) == (if 2 * backoff_base(attempt, cfg)
            > cfg.max_delay_ms {
            cfg.max_delay_ms as nat
        } else {
            2 * backoff_base(attempt, cfg)
        }),
        attempt > 20 ==> backoff_base(attempt + 1, cfg) == backoff_base(attempt, cfg),
        backoff_base(0, cfg) == backoff_base(1, cfg),
{
    if attempt <= 20 {
        let n = doublings(attempt);
        let grown = cfg.initial_delay_ms as nat * pow2(n);
        lemma_pow2_unfold(n + 1);
        assert(cfg.initial_delay_ms as nat * pow2(n + 1) == 2 * grown) by (nonlinear_arith)
            requires
                pow2(n + 1) == 2 * pow2(n),
                grown == cfg.initial_delay_ms as nat * pow2(n),
        ;
    }
}

/// The jitter step is a linear function of the tunnel and the attempt, taken modulo the
/// sixty-four bits of a word and then below two thousand. No attempt counts as the first.
pub proof fn law_jitter_is_linear(tunnel_id: i64, attempt: nat)
    requires
        attempt <= u32::MAX,
    ensures
        attempt > 0 ==> jitter_step(tunnel_id, attempt) == ((31 * unsigned(tunnel_id) + attempt)
            * 1_103_515_245) % 0x1_0000_0000_0000_0000 % 2000,
        jitter_step(tunnel_id, 0) == jitter_step(tunnel_id, 1),
        0 <= jitter_step(tunnel_id, attempt) < 2000,
{
    let m = 0x1_0000_0000_0000_0000int;
    let x = unsigned(tunnel_id) * 31;
    let c = if attempt == 0 {
        1int
    } else {
        attempt as int
    };
    vstd::arithmetic::div_mod::lemma_add_mod_noop(x, c, m);
    vstd::arithmetic::div_mod::lemma_small_mod(c as nat, m as nat);
    assert(wrapped(wrapped(x) + c) == (x + c) % m);
    vstd::arithmetic::div_mod::lemma_mul_mod_noop_left(x + c, 1_103_515_245, m);
}

/// The built-in appearance shows the details and the logos, asks before it ends, fits
/// the columns by itself, moves, and leaves the background to the terminal.
pub proof fn law_built_in_appearance(a: AppearanceConfig)
    ensures
        a.is_default() <==> a.show_detail_panel && a.os_logo && a.confirm_quit
            && a.identity_columns == 0 && !a.disable_animation && !a.opaque_background
            && a.date_format@ == "%Y-%m-%d %H:%M"@,
{
}

/// Reading a number as signed and as unsigned undo one another, and either keeps it
/// where it is positive for both.
pub proof fn law_signed_and_unsigned(v: u64, w: i64)
    ensures
        i64::MIN <= signed(v) <= i64::MAX,
        unsigned(signed(v) as i64) == v,
        0 <= unsigned(w) <= u64::MAX,
        signed(unsigned(w) as u64) == w,
        v <= i64::MAX ==> signed(v) == v,
        w >= 0 ==> unsigned(w) == w,
{
}

/// What is said of a settings file ends with what the parser said of it, behind the name
/// of the file.
pub proof fn law_parser_is_quoted(detail: Seq<char>)
    ensures
        ({
            let text = invalid_config_text(detail);
            let n = text.len() - detail.len();
            n == 21 && text.take(n) == "invalid config.toml: "@ && text.skip(n) == detail
        }),
{
    reveal_strlit("invalid config.toml: ");
    let text = invalid_config_text(detail);
    assert(text.take(21) =~= "invalid config.toml: "@);
    assert(text.skip(21) =~= detail);
}

} // verus!
