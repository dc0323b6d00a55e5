use relative::anchor::offset;
use relative::anchor::resolve;

#[test]
fn offset_above_the_anchor_is_the_distance() {
    assert_eq!(offset(0x7f00_1234, 0x7f00_0000), 0x1234);
    assert_eq!(offset(5, 5), 0);
    assert_eq!(offset(usize::MAX, 0), usize::MAX);
}

#[test]
fn offset_below_the_anchor_wraps() {
    assert_eq!(offset(0x0ff0, 0x1000), usize::MAX - 0xf);
    assert_eq!(offset(0, 1), usize::MAX);
    assert_eq!(offset(0, usize::MAX), 1);
}

#[test]
fn resolve_adds_and_wraps() {
    assert_eq!(resolve(0x2000, 0x10), 0x2010);
    assert_eq!(resolve(0x1000, usize::MAX - 0xf), 0x0ff0);
    assert_eq!(resolve(usize::MAX, 1), 0);
    assert_eq!(resolve(usize::MAX, usize::MAX), usize::MAX - 1);
    assert_eq!(resolve(0, 0), 0);
}

#[test]
fn resolve_undoes_offset() {
    let addresses = [0usize, 1, 0x1000, 0x7fff_ffff, usize::MAX - 1, usize::MAX];
    let anchors = [0usize, 1, 0x0fff, 0x1000, 0x8000_0000, usize::MAX];
    for &address in addresses.iter() {
        for &anchor in anchors.iter() {
            assert_eq!(resolve(anchor, offset(address, anchor)), address);
            assert_eq!(offset(resolve(anchor, address), anchor), address);
        }
    }
}

#[test]
fn moving_the_anchor_moves_the_address_by_as_much() {
    let place = 0x40usize;
    let here = 0x5555_0000usize;
    let there = 0x7f12_3000usize;
    assert_eq!(
        offset(resolve(there, place), resolve(here, place)),
        offset(there, here)
    );
}
