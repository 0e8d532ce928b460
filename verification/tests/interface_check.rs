use raw_input::{
    Core, CoreError, Display, Event, Grab, HookKind, Key, Listen, MonitorInfo, MouseButton,
    NativeHook, Registry, Simulate, SubscriptionHandle, VirtualDesktop,
};

struct NopCallback;

impl raw_input::EventCallback for NopCallback {
    fn invoke(&self, _event: Event) {}
}

struct NopHook;

impl NativeHook for NopHook {
    fn install(&mut self, _kind: HookKind) -> Result<(), String> {
        Ok(())
    }
    fn uninstall(&mut self, _kind: HookKind) {}
}

#[test]
fn check_core() {
    let _: fn(&mut Core, &mut NopHook) -> Result<(), CoreError> = Core::start::<NopHook>;
    let _: fn(&Core) -> bool = Core::is_runing;
    let _: fn(&mut Core) = Core::pause;
    let _: fn(&mut Core) = Core::resume;
    let _: fn(&mut Core, &mut Listen<NopCallback>, &mut Grab, &mut NopHook) =
        Core::stop::<NopHook, NopCallback>;
}

#[test]
fn check_listen() {
    let _: fn(&mut Listen<NopCallback>) = Listen::start;
    let _: fn(&Grab) -> bool = Grab::is_runing;
    let _: fn(&mut Listen<NopCallback>) = Listen::pause;
    let _: fn(&mut Listen<NopCallback>) = Listen::resume;
    let _: fn(&mut Listen<NopCallback>) = Listen::stop;
    let _: fn(&mut Listen<NopCallback>, bool) = Listen::mouse_move;
    let _: fn(&mut Listen<NopCallback>, bool) = Listen::mouse_wheel;
    let _: fn(&mut Listen<NopCallback>, bool) = Listen::mouse_button;
    let _: fn(&mut Listen<NopCallback>, bool) = Listen::keyboard;

    fn _check_subscribe(listen: &mut Listen<NopCallback>, f: NopCallback) {
        let _: SubscriptionHandle = listen.subscribe(f);
    }
    let _: fn(&mut Listen<NopCallback>) = Listen::unsubscribe_all;
}

#[test]
fn check_grab() {
    let _: fn(&mut Grab) = Grab::start;
    let _: fn(&Grab) -> bool = Grab::is_runing;
    let _: fn(&mut Grab) = Grab::pause;
    let _: fn(&mut Grab) = Grab::resume;
    let _: fn(&mut Grab) = Grab::stop;
    let _: fn(&mut Grab, bool) = Grab::mouse_move;
    let _: fn(&mut Grab, bool) = Grab::mouse_wheel;
    let _: fn(&mut Grab, bool) = Grab::mouse_button;
    let _: fn(&mut Grab, bool) = Grab::keyboard;
}

#[test]
fn check_display() {
    let _: fn(&Vec<MonitorInfo>) -> (i32, i32, i32, i32) = Display::get_virtual_screen_bounds;
    let _: fn(&Vec<MonitorInfo>) -> (i32, i32) = Display::get_virtual_screen_size;
    let _: fn(&Vec<MonitorInfo>) -> Option<&MonitorInfo> = Display::get_primary_monitor;
    let _: fn(&Vec<MonitorInfo>, i32, i32) -> Option<&MonitorInfo> =
        Display::get_monitor_from_point;
    let _: fn(&MonitorInfo) -> i32 = MonitorInfo::width;
    let _: fn(&MonitorInfo) -> i32 = MonitorInfo::height;
}

#[test]
fn check_simulate() {
    let _: fn(Event) -> Vec<raw_input::InputDesc> = Simulate::simulate;
    let _: fn(i32, i32) -> Vec<raw_input::InputDesc> = Simulate::mouse_move;
    let _: fn(i32, i32, &VirtualDesktop) -> Vec<raw_input::InputDesc> = Simulate::mouse_move_to;
    let _: fn(i64, i64) -> Vec<raw_input::InputDesc> = Simulate::mouse_wheel;
    let _: fn(MouseButton, bool) -> Vec<raw_input::InputDesc> = Simulate::mouse_button;
    let _: fn(Key, bool) -> Vec<raw_input::InputDesc> = Simulate::keyboard;
}

#[test]
fn check_subscription_handle() {
    let _: fn(&SubscriptionHandle, &mut Registry<NopCallback>) =
        SubscriptionHandle::pause::<NopCallback>;
    let _: fn(&SubscriptionHandle, &mut Registry<NopCallback>) =
        SubscriptionHandle::resume::<NopCallback>;
    let _: fn(SubscriptionHandle, &mut Registry<NopCallback>) =
        SubscriptionHandle::unsubscribe::<NopCallback>;
}
