use vm::memloc::MemLoc;

#[test]
fn memloc_const() {
    let variable = MemLoc::Const("const".to_owned());
    assert_eq!(variable, MemLoc::Const("const".to_owned()));
}

#[test]
fn memloc_var() {
    let variable = MemLoc::Var("var".to_owned());
    assert_eq!(variable, MemLoc::Var("var".to_owned()));
}

#[test]
fn memloc_reserve_and_ident() {
    let c = MemLoc::reserve_const("const1".to_owned());
    let v = MemLoc::reserve_var("var1".to_owned());
    assert_eq!(c, MemLoc::Const("const1".to_owned()));
    assert_eq!(v, MemLoc::Var("var1".to_owned()));
    assert_eq!(c.ident(), "const1");
    assert_eq!(v.ident(), "var1");
    assert_eq!(v.duplicate(), v);
}
