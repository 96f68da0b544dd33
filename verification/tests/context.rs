use readonly_check::ast::FunParam;
use readonly_check::context::{Context, ScopeKind};
use readonly_check::lattice::{ReadonlyKind, Rty};

fn name(s: &str) -> String {
    s.to_string()
}

#[test]
fn fresh_context_has_no_locals() {
    let ctx = Context::new(Rty::Readonly, Rty::Mutable);
    assert!(ctx.is_new_local(&name("$x")));
    assert!(!ctx.is_readonly("$x"));
    assert_eq!(ctx.readonly_return(), Rty::Readonly);
    assert_eq!(ctx.this_ty(), Rty::Mutable);
}

#[test]
fn added_local_is_no_longer_new() {
    let mut ctx = Context::new(Rty::Mutable, Rty::Mutable);
    ctx.add_local(&name("$x"), true);
    assert!(!ctx.is_new_local(&name("$x")));
    assert!(ctx.is_new_local(&name("$y")));
    assert!(ctx.is_readonly("$x"));
    assert!(!ctx.is_readonly("$y"));
}

#[test]
fn first_binding_is_kept() {
    let mut ctx = Context::new(Rty::Mutable, Rty::Mutable);
    ctx.add_local(&name("$x"), true);
    ctx.add_local(&name("$x"), false);
    assert!(ctx.is_readonly("$x"));

    let mut ctx = Context::new(Rty::Mutable, Rty::Mutable);
    ctx.add_local(&name("$x"), false);
    ctx.add_local(&name("$x"), true);
    assert!(!ctx.is_readonly("$x"));
    assert!(!ctx.is_new_local(&name("$x")));
}

#[test]
fn function_scope_takes_its_annotations() {
    let kind = ScopeKind::Function { readonly_this: Some(ReadonlyKind::Readonly), readonly_ret: None };
    let ctx = Context::for_scope(kind, &vec![]);
    assert_eq!(ctx.this_ty(), Rty::Readonly);
    assert_eq!(ctx.readonly_return(), Rty::Mutable);

    let kind = ScopeKind::Function { readonly_this: None, readonly_ret: Some(ReadonlyKind::Readonly) };
    let ctx = Context::for_scope(kind, &vec![]);
    assert_eq!(ctx.this_ty(), Rty::Mutable);
    assert_eq!(ctx.readonly_return(), Rty::Readonly);
}

#[test]
fn method_scope_takes_its_flag() {
    let kind = ScopeKind::Method { readonly_this: true, readonly_ret: None };
    let ctx = Context::for_scope(kind, &vec![]);
    assert_eq!(ctx.this_ty(), Rty::Readonly);
    assert_eq!(ctx.readonly_return(), Rty::Mutable);

    let kind = ScopeKind::Method { readonly_this: false, readonly_ret: Some(ReadonlyKind::Readonly) };
    let ctx = Context::for_scope(kind, &vec![]);
    assert_eq!(ctx.this_ty(), Rty::Mutable);
    assert_eq!(ctx.readonly_return(), Rty::Readonly);
}

#[test]
fn parameters_seed_the_locals() {
    let params = vec![
        FunParam { name: name("$a"), readonly: Some(ReadonlyKind::Readonly) },
        FunParam { name: name("$b"), readonly: None },
    ];
    let kind = ScopeKind::Function { readonly_this: None, readonly_ret: None };
    let ctx = Context::for_scope(kind, &params);
    assert!(!ctx.is_new_local(&name("$a")));
    assert!(!ctx.is_new_local(&name("$b")));
    assert!(ctx.is_new_local(&name("$c")));
    assert!(ctx.is_readonly("$a"));
    assert!(!ctx.is_readonly("$b"));
}

#[test]
fn repeated_parameter_keeps_its_first_annotation() {
    let params = vec![
        FunParam { name: name("$a"), readonly: None },
        FunParam { name: name("$a"), readonly: Some(ReadonlyKind::Readonly) },
    ];
    let kind = ScopeKind::Method { readonly_this: false, readonly_ret: None };
    let ctx = Context::for_scope(kind, &params);
    assert!(!ctx.is_readonly("$a"));
}
