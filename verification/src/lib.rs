//! Platform-neutral core of a global input capture / synthesis library.
//!
//! The crate models the logic of a raw-input engine: the lifecycle state
//! machines for the capture hook, the listener and the interceptor, the
//! subscriber registry and dispatcher, the raw-event normalizer with its
//! bidirectional key-code translation tables, the interception decision, and
//! the synthesizer that turns canonical events into native injection
//! descriptors.  Native hook registration, display enumeration and the
//! injection call itself are opaque platform primitives: they sit behind the
//! [`NativeHook`](lifecycle::NativeHook) trait and behind plain-value
//! parameters such as [`VirtualDesktop`](display::VirtualDesktop), so that
//! every decision the engine makes is stated and verified here.

pub mod bits;
pub mod dispatcher;
pub mod display;
pub mod event;
pub mod grab;
pub mod key;
pub mod keycode_macos;
pub mod keycode_windows;
pub mod lifecycle;
pub mod listen;
pub mod mask;
pub mod simulate;
pub mod subscription;

pub use crate::dispatcher::{EventCallback, Registry, Status, Subscriber};
pub use crate::display::{Display, MonitorInfo, VirtualDesktop};
pub use crate::event::{Event, MouseButton, Point, RawEvent, RawKey, WheelUnit};
pub use crate::grab::Grab;
pub use crate::key::Key;
pub use crate::lifecycle::{process_event, Core, CoreError, HookAction, HookKind, NativeHook};
pub use crate::listen::Listen;
pub use crate::mask::update_state;
pub use crate::simulate::{InputBuilder, InputDesc, KeyboardInput, MouseInput, Simulate};
pub use crate::subscription::SubscriptionHandle;
