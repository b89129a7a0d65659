use chip8::types::{Addr, Nibble};

#[test]
fn addr_from() {
    let addr = Addr::new(0xEEF);
    assert_eq!(Addr::from(0xBEEF), addr);
    assert_eq!(usize::from(addr), 0xEEF as usize);
}

#[test]
fn addr_deref() {
    let addr = Addr::new(0xADD);
    assert_eq!(0xADD, addr.get())
}

#[test]
fn nibble_from() {
    let nib = Nibble::new(0x0F);
    assert_eq!(Nibble::from(0xAF), nib);
    assert_eq!(usize::from(nib), 0x0F as usize);
}

#[test]
fn nibble_deref() {
    let nib = Nibble::new(0x0C);
    assert_eq!(0xC, nib.get())
}
