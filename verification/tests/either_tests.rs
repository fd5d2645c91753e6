use orchestrator_core::either::{
    Compute, EchoService, Either, IdentityLayer, IdentityPlugin, Layer, Operation, Plugin, Ready,
    RefuseService, Service,
};

#[test]
fn either_computation_resolves_to_held_value() {
    let left: Either<Ready, Ready> = Either::Left { value: Ready { value: 21 } };
    assert_eq!(left.resolve(), Ready { value: 21 }.resolve());
    let right: Either<Ready, Ready> = Either::Right { value: Ready { value: 4 } };
    assert_eq!(right.resolve(), 4);
}

#[test]
fn either_left_matches_direct_invocation() {
    let mut direct = EchoService;
    let mut wrapped: Either<EchoService, RefuseService> = Either::Left { value: EchoService };
    assert_eq!(wrapped.call(10), direct.call(10));
    assert_eq!(wrapped.call(11), Ok(11));
}

#[test]
fn either_right_matches_direct_invocation() {
    let mut direct = RefuseService { code: 3 };
    let mut wrapped: Either<EchoService, RefuseService> =
        Either::Right { value: RefuseService { code: 3 } };
    assert_eq!(wrapped.call(10), direct.call(10));
    assert_eq!(wrapped.call(11), Err(3));
}

#[test]
fn either_poll_ready_delegates() {
    let mut wrapped: Either<EchoService, RefuseService> = Either::Left { value: EchoService };
    assert_eq!(wrapped.poll_ready(), Ok(()));
}

#[test]
fn either_layer_wraps_into_either() {
    let layers: Either<IdentityLayer, IdentityLayer> = Either::Left { value: IdentityLayer };
    let mut layered = layers.layer(EchoService);
    assert_eq!(layered, Either::Left { value: EchoService });
    assert_eq!(layered.call(4), Ok(4));
}

#[test]
fn either_plugin_maps_both_parts() {
    let plugins: Either<IdentityPlugin, IdentityPlugin> = Either::Right { value: IdentityPlugin };
    let mapped = plugins.map(Operation { inner: EchoService, layer: IdentityLayer });
    assert_eq!(mapped.inner, Either::Right { value: EchoService });
    assert_eq!(mapped.layer, Either::Right { value: IdentityLayer });
    let mut svc = mapped.inner;
    assert_eq!(svc.call(9), Ok(9));
}

#[test]
fn nested_either_still_delegates() {
    let mut nested: Either<Either<EchoService, RefuseService>, RefuseService> =
        Either::Left { value: Either::Right { value: RefuseService { code: 8 } } };
    assert_eq!(nested.call(1), Err(8));
    assert_eq!(nested.poll_ready(), Ok(()));
}
