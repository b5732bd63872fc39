use gba::fixed_point::Fx;

#[test]
fn test_add() {
    let one = Fx::<u16, 4>::from_int_part(1);
    let two = Fx::<u16, 4>::from_int_part(2);
    assert!(one + one == two)
}

#[test]
fn test_sub() {
    let one = Fx::<u16, 4>::from_int_part(1);
    let two = Fx::<u16, 4>::from_int_part(2);
    assert!(two - one == one)
}

#[test]
fn test_shl() {
    let one = Fx::<u16, 4>::from_int_part(1);
    let two = Fx::<u16, 4>::from_int_part(2);
    assert!(one << 1 == two)
}

#[test]
fn test_shr() {
    let one = Fx::<u16, 4>::from_int_part(1);
    let two = Fx::<u16, 4>::from_int_part(2);
    assert!(two >> 1 == one)
}

#[test]
fn test_neg() {
    let one = Fx::<i16, 4>::from_int_part(1);
    let neg_one = Fx::<i16, 4>::from_int_part(-1);
    assert!(-one == neg_one);
    assert!(-(-one) == one);
}

#[test]
fn test_mul() {
    let half = Fx::<u16, 4>::from_int_part(1) >> 1;
    let two = Fx::<u16, 4>::from_int_part(2);
    let three = Fx::<u16, 4>::from_int_part(3);
    let twelve = Fx::<u16, 4>::from_int_part(12);
    assert!(two * three == twelve * half);
}

#[test]
fn test_div() {
    let two = Fx::<u16, 4>::from_int_part(2);
    let six = Fx::<u16, 4>::from_int_part(6);
    let twelve = Fx::<u16, 4>::from_int_part(12);
    assert!(twelve / two == six);
}
