use sdl_safe::color::BlendMode;
use sdl_safe::color::Rgb;
use sdl_safe::geo::Rect;
use sdl_safe::native::CallLog;
use sdl_safe::native::NativeCall;
use sdl_safe::video::surface::NativeSurface;
use sdl_safe::video::surface::Surface;
use sdl_safe::video::surface::SurfaceState;

fn start_state() -> SurfaceState {
    SurfaceState {
        clip: None,
        blend: BlendMode::NoBlend,
        alpha: 255,
        color: Rgb { r: 255, g: 255, b: 255 },
    }
}

fn area() -> Rect {
    Rect { x: 10, y: 20, width: 30, height: 40 }
}

#[test]
fn a_decorator_chain_equals_the_direct_native_calls() {
    // the chain: one native call per decorator, left to right
    let chained = NativeSurface::new(1, start_state())
        .clipped(area())
        .blend(BlendMode::AlphaBlend)
        .alpha_mod(200);
    // the same three native calls issued directly, in the same order
    let mut direct = NativeSurface::new(1, start_state());
    direct.apply_clip(area());
    direct.apply_blend(BlendMode::AlphaBlend);
    direct.apply_alpha(200);
    assert_eq!(chained.snapshot(), direct.snapshot());
    assert_eq!(chained.as_raw(), direct.as_raw());
}

#[test]
fn each_decorator_changes_exactly_its_own_field() {
    let s = NativeSurface::new(2, start_state());
    let clipped = s.clipped(area());
    let state = clipped.snapshot();
    assert_eq!(state.clip, Some(area()));
    assert_eq!(state.blend, BlendMode::NoBlend);
    assert_eq!(state.alpha, 255);

    let colored = clipped.color_mod(Rgb { r: 1, g: 2, b: 3 });
    let state = colored.snapshot();
    assert_eq!(state.clip, Some(area()));
    assert_eq!(state.color, Rgb { r: 1, g: 2, b: 3 });
}

#[test]
fn decorators_keep_the_captured_parameter_readable() {
    let s = NativeSurface::new(3, start_state());
    let c = s.clipped(area());
    assert_eq!(*c.area(), area());
    let b = c.blend(BlendMode::Additive);
    assert_eq!(b.mode(), BlendMode::Additive);
    let a = b.alpha_mod(7);
    assert_eq!(a.alpha(), 7);
    let m = a.color_mod(Rgb { r: 9, g: 8, b: 7 });
    assert_eq!(*m.color(), Rgb { r: 9, g: 8, b: 7 });
}

#[test]
fn decorators_do_not_change_the_underlying_handle() {
    let s = NativeSurface::new(44, start_state());
    let chain = s.clipped(area()).blend(BlendMode::Modulated).alpha_mod(1);
    assert_eq!(chain.as_raw(), 44);
}

#[test]
fn cloning_hands_over_a_new_owning_handle_with_the_same_state() {
    let s = NativeSurface::new(5, start_state()).blend(BlendMode::Multiplied);
    let copy = s.cloned(6);
    assert_eq!(copy.as_raw(), 6);
    assert_eq!(copy.snapshot(), s.snapshot());
    // the copy owns its handle and releases it exactly once
    let mut log = CallLog::new();
    copy.close(&mut log);
    assert_eq!(log.calls(), &vec![NativeCall::Release(6)]);
}

#[test]
fn an_owned_surface_is_released_exactly_once() {
    let s = NativeSurface::new(77, start_state());
    let mut log = CallLog::new();
    s.close(&mut log);
    assert_eq!(log.calls(), &vec![NativeCall::Release(77)]);
}
