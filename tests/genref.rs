use generic_mutability::{
    GenFrom, GenInto, GenRef, GenRefEnum, GenRefMethods, GenStruct, IncorrectMutability,
    Mutability, MutabilityEnum, Mutable, Shared,
};

fn gen_index<M: Mutability>(gen_vec: GenRef<'_, M, Vec<i32>>, idx: usize) -> GenRef<'_, M, i32> {
    GenRef::map(gen_vec, move |v| &v[idx], move |v| &mut v[idx])
}

fn gen_get<M: Mutability>(
    gen_vec: GenRef<'_, M, Vec<i32>>,
    idx: usize,
) -> Option<GenRef<'_, M, i32>> {
    match M::mutability() {
        MutabilityEnum::Mutable(proof) => GenRef::gen_into_mut(gen_vec, proof)
            .get_mut(idx)
            .map(|r| GenRef::gen_from_mut(r, proof)),
        MutabilityEnum::Shared(proof) => GenRef::gen_into_shared(gen_vec, proof)
            .get(idx)
            .map(|r| GenRef::gen_from_shared(r, proof)),
    }
}

#[test]
fn map_macro() {
    let mut vec = vec![1, 2, 3];
    let elem = GenRef::gen_into_mut(gen_index(GenRef::from(&mut vec), 1), Mutable::mutability());
    assert_eq!(*elem, 2);
}

#[test]
fn map_macro_with_get() {
    let mut vec = vec![1, 2, 3];
    let elem = gen_get(GenRef::from(&mut vec), 1);
    assert!(elem.is_some_and(|e| e == &2));
}

struct Foo {
    pub a: Bar,
}

struct Bar {
    pub b: i32,
}

impl Foo {
    fn gen_b<M: Mutability>(foo: GenRef<'_, M, Foo>) -> GenRef<'_, M, i32> {
        GenRef::map(foo, |f| &f.a.b, |f| &mut f.a.b)
    }
}

#[test]
fn field_access_macro() {
    let foo = Foo { a: Bar { b: 1 } };

    let b = GenRef::into_shared(Foo::gen_b(GenRef::from(&foo)));

    assert_eq!(b, &1)
}

#[test]
fn round_trip_writes_reach_the_place() {
    let mut x = 5;
    {
        let r = GenRef::into_mut(GenRef::from(&mut x));
        assert_eq!(*r, 5);
        *r = 9;
        assert_eq!(*r, 9);
    }
    assert_eq!(x, 9);
}

#[test]
fn read_transparency_both_mutabilities() {
    let s = String::from("abc");
    let shared: GenRef<'_, Shared, String> = GenRef::from(&s);
    assert_eq!(*shared, s);
    assert!(shared == &String::from("abc"));
    assert!(!(shared == &String::from("abd")));

    let mut n = 41u64;
    let mutable: GenRef<'_, Mutable, u64> = GenRef::from(&mut n);
    assert_eq!(*mutable, 41);
    assert!(mutable == &41u64);
    let other = 41u64;
    assert!(mutable == GenRef::from(&other));
}

#[test]
fn downgrade_observes_last_write() {
    let mut x = 1;
    let mut g: GenRef<'_, Mutable, i32> = GenRef::from(&mut x);
    *g = 7;
    let s: &i32 = GenRef::gen_into_shared_downgrading(g);
    assert_eq!(*s, 7);
    assert_eq!(x, 7);
}

#[test]
fn downgrading_from_mut_into_shared_marker() {
    let mut x = 3;
    let g: GenRef<'_, Shared, i32> = GenRef::gen_from_mut_downgrading(&mut x);
    assert_eq!(*g, 3);
    let h = g.clone();
    assert_eq!(*GenRef::into_shared(h), 3);
    assert_eq!(x, 3);
}

#[test]
fn downcast_same_marker_succeeds() {
    let mut x = 10;
    let e = GenRefEnum::from(GenRef::from(&mut x));
    assert!(matches!(e, GenRefEnum::Mutable(_)));
    match GenRef::<Mutable, i32>::try_from(e) {
        Ok(g) => {
            let r = GenRef::into_mut(g);
            assert_eq!(*r, 10);
            *r = 11;
        }
        Err(_) => panic!("expected a mutable reference"),
    }
    assert_eq!(x, 11);

    let y = 20;
    let e = GenRefEnum::from(GenRef::from(&y));
    assert!(matches!(e, GenRefEnum::Immutable(_)));
    match GenRef::<Shared, i32>::try_from(e) {
        Ok(g) => assert_eq!(*g, 20),
        Err(_) => panic!("expected a shared reference"),
    }
}

#[test]
fn downcast_other_marker_fails() {
    let mut x = 10;
    let e = GenRefEnum::from(GenRef::from(&mut x));
    match GenRef::<Shared, i32>::try_from(e) {
        Ok(_) => panic!("a mutable reference must not become a shared one"),
        Err(err) => {
            assert!(!err.target_mutable());
            assert_eq!(err.description(), "IncorrectMutability(mut -> immut)");
            assert_eq!(
                err.message(),
                "Failed to convert GenRefEnum<'_, T> into GenRef<'_, Immutable, T>:\nMutability of target differs from source\n\nExpected enum variant GenRefEnum::Immutable\n   Found enum variant GenRefEnum::Mutable"
            );
        }
    }

    let y = 20;
    let e = GenRefEnum::from(GenRef::from(&y));
    let r: Result<GenRef<'_, Mutable, i32>, IncorrectMutability> = GenRef::try_from(e);
    match r {
        Ok(_) => panic!("a shared reference must not become a mutable one"),
        Err(err) => {
            assert!(err.target_mutable());
            assert_eq!(err.description(), "IncorrectMutability(immut -> mut)");
            assert_eq!(
                err.message(),
                "Failed to convert GenRefEnum<'_, T> into GenRef<'_, Mutable, T>:\nMutability of target differs from source\n\nExpected enum variant GenRefEnum::Mutable\n   Found enum variant GenRefEnum::Immutable"
            );
        }
    }
}

#[test]
fn split_halves_are_independent() {
    let mut pair = (1, 2);
    {
        let (a, b) = GenRef::split_pair(GenRef::from(&mut pair));
        let a = GenRef::into_mut(a);
        let b = GenRef::into_mut(b);
        *a = 100;
        assert_eq!(*b, 2);
        *b = 200;
        assert_eq!(*a, 100);
    }
    assert_eq!(pair, (100, 200));

    let shared_pair = (5, 6);
    let (a, b) = GenRef::split_pair(GenRef::from(&shared_pair));
    assert_eq!((*a, *b), (5, 6));
}

#[test]
fn split_with_functions_and_moved_value() {
    let mut v = vec![1, 2, 3, 4];
    {
        let (left, right) = GenRef::split(
            GenRef::from(&mut v),
            2usize,
            |v: &mut Vec<i32>, mid| {
                let (l, r) = v.split_at_mut(mid);
                (&mut l[0], &mut r[0])
            },
            |v: &Vec<i32>, mid| (&v[0], &v[mid]),
        );
        let left = GenRef::into_mut(left);
        let right = GenRef::into_mut(right);
        *left = -1;
        *right = -3;
    }
    assert_eq!(v, vec![-1, 2, -3, 4]);
}

#[test]
fn scenario_generic_index_updates_one_element() {
    let mut v = vec![10, 20, 30, 40];
    {
        let e = gen_index(GenRef::from(&mut v), 2);
        let e = GenRef::into_mut(e);
        *e = 99;
    }
    assert_eq!(v, vec![10, 20, 99, 40]);
}

#[test]
fn markers_report_their_mutability() {
    assert!(!Shared::is_mutable());
    assert!(Mutable::is_mutable());
    assert!(matches!(<Shared as Mutability>::mutability(), MutabilityEnum::Shared(_)));
    assert!(matches!(<Mutable as Mutability>::mutability(), MutabilityEnum::Mutable(_)));
}

#[test]
fn reborrow_then_use_the_outer_one() {
    let mut x = 1;
    let mut g: GenRef<'_, Mutable, i32> = GenRef::from(&mut x);
    {
        let r = GenRef::into_mut(GenRef::reborrow(&mut g));
        *r = 2;
    }
    assert_eq!(*g, 2);
    *g = 3;
    assert_eq!(x, 3);

    let y = 4;
    let mut s: GenRef<'_, Shared, i32> = GenRef::from(&y);
    assert_eq!(*GenRef::into_shared(GenRef::reborrow(&mut s)), 4);
    assert_eq!(*s, 4);
}

#[test]
fn dispatch_runs_the_matching_function() {
    let mut x = 8;
    let kind = GenRef::dispatch(GenRef::from(&mut x), 1, |r: &mut i32, k| {
        *r += k;
        "mutable"
    }, |_: &i32, _| "shared");
    assert_eq!(kind, "mutable");
    assert_eq!(x, 9);

    let y = 8;
    let kind = GenRef::dispatch(GenRef::from(&y), 1, |_: &mut i32, _| "mutable", |r: &i32, k| {
        assert_eq!(*r + k, 9);
        "shared"
    });
    assert_eq!(kind, "shared");
}

#[test]
fn map_deref_follows_box() {
    let mut b = Box::new(5);
    {
        let g = GenRef::map_deref(GenRef::from(&mut b));
        let r = GenRef::into_mut(g);
        *r = 6;
    }
    assert_eq!(*b, 6);
}

#[test]
fn method_syntax_matches_functions() {
    let mut pair = (1, 2);
    {
        let mut g: GenRef<'_, Mutable, (i32, i32)> = GenRef::from(&mut pair);
        assert_eq!(GenRefMethods::deref(&g).0, 1);
        {
            let h = g.reborrow().map(|p| &mut p.1, |p| &p.1);
            let r = GenRef::into_mut(h);
            assert_eq!(*r, 2);
            *r = 20;
        }
        let r = g.gen_into_mut(Mutable::mutability());
        r.0 = 10;
    }
    assert_eq!(pair, (10, 20));

    let y = 3;
    let s: GenRef<'_, Shared, i32> = GenRef::from(&y);
    assert_eq!(*s.gen_into_shared(Shared::mutability()), 3);
    let t: GenRef<'_, Shared, i32> = GenRef::from(&y);
    assert_eq!(*t.gen_into_shared_downgrading(), 3);
}

#[test]
fn gen_struct_holds_the_form_of_its_mutability() {
    let s: GenStruct<Shared, &str, String> = GenStruct::from_shared("view", Shared::mutability());
    assert_eq!(s.into_shared(Shared::mutability()), "view");

    let m: GenStruct<Mutable, &str, String> =
        GenStruct::from_mut(String::from("owned"), Mutable::mutability());
    assert_eq!(m.into_mut(Mutable::mutability()), "owned");
}

#[test]
fn gen_struct_as_ref_reaches_the_value_held() {
    let mut m: GenStruct<Mutable, u8, u32> = GenStruct::from_mut(7, Mutable::mutability());
    {
        let inner = GenStruct::as_ref(GenRef::from(&mut m)).into_mut(Mutable::mutability());
        let r = GenRef::into_mut(inner);
        assert_eq!(*r, 7);
        *r = 70;
    }
    assert_eq!(m.into_mut(Mutable::mutability()), 70);

    let s: GenStruct<Shared, u8, u32> = GenStruct::from_shared(3, Shared::mutability());
    let inner = GenStruct::as_ref(GenRef::from(&s)).into_shared(Shared::mutability());
    assert_eq!(*inner, 3);
}

#[test]
fn index_projects_one_element() {
    let mut v = vec![1, 2, 3, 4];
    {
        let e = GenRef::into_mut(GenRef::index(GenRef::from(&mut v), 0));
        assert_eq!(*e, 1);
        *e = -1;
    }
    assert_eq!(v, vec![-1, 2, 3, 4]);

    let w = vec![7, 8];
    let e = GenRef::index(GenRef::from(&w), 1);
    assert_eq!(*e, 8);
}

#[test]
fn comparisons_use_referenced_values() {
    let a = 1;
    let mut b = 2;
    let ga: GenRef<'_, Shared, i32> = GenRef::from(&a);
    let gb: GenRef<'_, Mutable, i32> = GenRef::from(&mut b);
    assert!(ga < gb);
    assert_eq!(ga.partial_cmp(&gb), Some(std::cmp::Ordering::Less));
    assert!(ga != gb);
    assert!(gb == &2);
}

#[test]
fn method_map_deref_follows_box() {
    let b = Box::new(String::from("boxed"));
    let g: GenRef<'_, Shared, Box<String>> = GenRef::from(&b);
    let s = g.map_deref();
    assert_eq!(s.len(), 5);
    assert!(s == &String::from("boxed"));
}
