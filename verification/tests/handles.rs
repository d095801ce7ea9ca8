use narrow_box::Descriptor;
use narrow_box::Diagnosable;
use narrow_box::FsFailure;
use narrow_box::Heap;
use narrow_box::IntSeq;
use narrow_box::Ints4;
use narrow_box::Ints6;
use narrow_box::Kind;
use narrow_box::NarrowBox;
use narrow_box::ParseFailure;

fn ints6(values: [i32; 6]) -> Ints6 {
    let mut elems: Vec<i32> = Vec::new();
    for v in values {
        elems.push(v);
    }
    Ints6::new(elems)
}

fn ints4(values: [i32; 4]) -> Ints4 {
    let mut elems: Vec<i32> = Vec::new();
    for v in values {
        elems.push(v);
    }
    Ints4::new(elems)
}

#[test]
fn handle_is_one_word() {
    assert_eq!(
        std::mem::size_of::<NarrowBox<IntSeq>>(),
        std::mem::size_of::<usize>()
    );
    assert_eq!(
        std::mem::size_of::<NarrowBox<Diagnosable>>(),
        std::mem::size_of::<usize>()
    );
    assert_eq!(
        std::mem::size_of::<NarrowBox<Ints6>>(),
        std::mem::size_of::<usize>()
    );
    assert_eq!(
        std::mem::size_of::<NarrowBox<FsFailure>>(),
        std::mem::size_of::<usize>()
    );
}

#[test]
fn sized_flags() {
    assert!(NarrowBox::<Ints4>::is_sized());
    assert!(NarrowBox::<Ints6>::is_sized());
    assert!(NarrowBox::<FsFailure>::is_sized());
    assert!(NarrowBox::<ParseFailure>::is_sized());
    assert!(!NarrowBox::<IntSeq>::is_sized());
    assert!(!NarrowBox::<Diagnosable>::is_sized());
}

#[test]
fn erased_sequence_reports_length_and_contents() {
    let mut heap = Heap::new();
    let h: NarrowBox<IntSeq> = NarrowBox::new_unsize(ints6([1, 2, 3, 4, 5, 6]), &mut heap);
    assert_eq!(h.len(&heap), 6);
    for i in 0..6 {
        assert_eq!(h.get(&heap, i), (i as i32) + 1);
    }
    h.destroy(&mut heap);
}

#[test]
fn erased_short_sequence_reports_its_own_length() {
    let mut heap = Heap::new();
    let h: NarrowBox<IntSeq> = NarrowBox::new_unsize(ints4([7, 8, 9, 10]), &mut heap);
    assert_eq!(h.len(&heap), 4);
    assert_eq!(h.get(&heap, 3), 10);
    h.destroy(&mut heap);
}

#[test]
fn erase_then_downcast_returns_the_value() {
    let mut heap = Heap::new();
    let h: NarrowBox<IntSeq> = NarrowBox::new_unsize(ints6([1, 2, 3, 4, 5, 6]), &mut heap);
    let back: NarrowBox<Ints6> = h.downcast_unchecked(&heap);
    let w = back.into_inner(&mut heap);
    assert_eq!(w.elems().as_slice(), &[1, 2, 3, 4, 5, 6]);
}

#[test]
fn erase_then_downcast_returns_the_failure() {
    let mut heap = Heap::new();
    let v = FsFailure {
        code: 2,
        path: String::from("/lmao"),
    };
    let h: NarrowBox<Diagnosable> = NarrowBox::new_unsize(v, &mut heap);
    let w: &FsFailure = h.downcast_ref_unchecked(&heap);
    assert_eq!(w.code, 2);
    assert_eq!(w.path, "/lmao");
    let back: NarrowBox<FsFailure> = h.downcast_unchecked(&heap);
    let w = back.into_inner(&mut heap);
    assert_eq!(w.code, 2);
    assert_eq!(w.path, "/lmao");
}

#[test]
fn in_place_erasure_keeps_the_block_address() {
    let mut heap = Heap::new();
    let sized: NarrowBox<Ints6> = NarrowBox::new(ints6([1, 2, 3, 4, 5, 6]), &mut heap);
    let before = sized.get_raw_erased();
    let blocks_before = heap.size();
    let erased: NarrowBox<IntSeq> = sized.unsize(&mut heap);
    assert_eq!(erased.get_raw_erased(), before);
    assert_eq!(heap.size(), blocks_before);
    assert_eq!(erased.len(&heap), 6);
    erased.destroy(&mut heap);
}

#[test]
fn destroying_an_erased_handle_finalizes_exactly_once() {
    let mut heap = Heap::new();
    let h: NarrowBox<Diagnosable> = NarrowBox::new_unsize(
        FsFailure {
            code: 13,
            path: String::from("/denied"),
        },
        &mut heap,
    );
    assert_eq!(heap.finalized().len(), 0);
    h.destroy(&mut heap);
    assert_eq!(heap.finalized().as_slice(), &[Kind::FsFailure]);
}

#[test]
fn destroying_a_sized_handle_finalizes_exactly_once() {
    let mut heap = Heap::new();
    let h: NarrowBox<ParseFailure> = NarrowBox::new(ParseFailure { line: 3, column: 9 }, &mut heap);
    h.destroy(&mut heap);
    assert_eq!(heap.finalized().as_slice(), &[Kind::ParseFailure]);
}

#[test]
fn unwrapping_runs_no_finalizer() {
    let mut heap = Heap::new();
    let h: NarrowBox<Ints6> = NarrowBox::new(ints6([1, 2, 3, 4, 5, 6]), &mut heap);
    let w = h.into_inner(&mut heap);
    assert_eq!(w.length(), 6);
    assert_eq!(heap.finalized().len(), 0);
}

#[test]
fn failed_checked_downcast_returns_a_usable_handle() {
    let mut heap = Heap::new();
    let v = FsFailure {
        code: 2,
        path: String::from("/lmao"),
    };
    let h: NarrowBox<Diagnosable> = NarrowBox::new_unsize(v, &mut heap);
    assert!(h.is::<FsFailure>(&heap));
    assert!(!h.is::<ParseFailure>(&heap));
    assert_eq!(h.diagnose(&heap), Kind::FsFailure);

    let h = match h.downcast::<ParseFailure>(&heap) {
        Ok(_) => panic!("downcast to an unrelated type succeeded"),
        Err(h) => h,
    };
    // the failed attempt lost nothing: the handle still dereferences...
    let seen: &FsFailure = h.downcast_ref_unchecked(&heap);
    assert_eq!(seen.code, 2);
    assert_eq!(seen.path, "/lmao");
    // ...and a downcast to the true type still succeeds with the value intact
    let back = match h.downcast::<FsFailure>(&heap) {
        Ok(back) => back,
        Err(_) => panic!("downcast to the true type failed"),
    };
    let w = back.into_inner(&mut heap);
    assert_eq!(w.code, 2);
    assert_eq!(w.path, "/lmao");
    assert_eq!(heap.finalized().len(), 0);
}

#[test]
fn failed_checked_downcast_destroys_correctly() {
    let mut heap = Heap::new();
    let h: NarrowBox<Diagnosable> = NarrowBox::new_unsize(
        FsFailure {
            code: 1,
            path: String::from("/"),
        },
        &mut heap,
    );
    let h = match h.downcast::<ParseFailure>(&heap) {
        Ok(_) => panic!("downcast to an unrelated type succeeded"),
        Err(h) => h,
    };
    h.destroy(&mut heap);
    assert_eq!(heap.finalized().as_slice(), &[Kind::FsFailure]);
}

#[test]
fn synthesis_equals_the_descriptor_a_real_block_carries() {
    let mut heap = Heap::new();

    // sequence-like target
    let synthesized = narrow_box::synthesize_metadata::<IntSeq>(Kind::Ints6);
    let h: NarrowBox<IntSeq> = NarrowBox::new_unsize(ints6([1, 2, 3, 4, 5, 6]), &mut heap);
    let (_, stored) = h.get_raw_unsized(&heap);
    assert_eq!(synthesized, stored);
    let (_, stored) = h.into_raw_unsized(&heap);
    assert_eq!(synthesized, stored);

    // capability-set target
    let synthesized = narrow_box::synthesize_metadata::<Diagnosable>(Kind::ParseFailure);
    let h: NarrowBox<Diagnosable> =
        NarrowBox::new_unsize(ParseFailure { line: 1, column: 2 }, &mut heap);
    let (_, stored) = h.get_raw_unsized(&heap);
    assert_eq!(synthesized, stored);
}

#[test]
fn synthesized_descriptors_read_off_the_registry() {
    assert_eq!(
        narrow_box::synthesize_metadata::<IntSeq>(Kind::Ints4),
        Descriptor::Count(4)
    );
    assert_eq!(
        narrow_box::synthesize_metadata::<IntSeq>(Kind::Ints6),
        Descriptor::Count(6)
    );
    assert_ne!(
        narrow_box::synthesize_metadata::<Diagnosable>(Kind::FsFailure),
        narrow_box::synthesize_metadata::<Diagnosable>(Kind::ParseFailure)
    );
    assert_eq!(
        narrow_box::synthesize_metadata::<Ints6>(Kind::Ints6),
        Descriptor::Inert
    );
}

#[test]
fn sequence_elements_can_be_written_in_place() {
    let mut heap = Heap::new();
    let h: NarrowBox<IntSeq> = NarrowBox::new_unsize(ints6([1, 2, 3, 4, 5, 6]), &mut heap);
    h.set(&mut heap, 2, 9);
    assert_eq!(h.get(&heap, 2), 9);
    assert_eq!(h.get(&heap, 1), 2);
    assert_eq!(h.len(&heap), 6);
    let w = h.downcast_unchecked::<Ints6>(&heap).into_inner(&mut heap);
    assert_eq!(w.elems().as_slice(), &[1, 2, 9, 4, 5, 6]);
}

#[test]
fn mutable_downcast_writes_through() {
    let mut heap = Heap::new();
    let h: NarrowBox<Diagnosable> = NarrowBox::new_unsize(
        FsFailure {
            code: 2,
            path: String::from("/a"),
        },
        &mut heap,
    );
    {
        let v: &mut FsFailure = h.downcast_mut_unchecked(&mut heap);
        v.code = 17;
    }
    let seen: &FsFailure = h.downcast_ref_unchecked(&heap);
    assert_eq!(seen.code, 17);
    assert!(h.is::<FsFailure>(&heap));
    h.destroy(&mut heap);
    assert_eq!(heap.finalized().as_slice(), &[Kind::FsFailure]);
}

#[test]
fn every_handle_owns_its_own_block() {
    let mut heap = Heap::new();
    let a: NarrowBox<IntSeq> = NarrowBox::new_unsize(ints4([1, 2, 3, 4]), &mut heap);
    let b: NarrowBox<Diagnosable> = NarrowBox::new_unsize(
        FsFailure {
            code: 9,
            path: String::from("/b"),
        },
        &mut heap,
    );
    let c: NarrowBox<IntSeq> = NarrowBox::new_unsize(ints6([9, 9, 9, 9, 9, 9]), &mut heap);
    assert_ne!(a.get_raw_erased(), b.get_raw_erased());
    assert_ne!(b.get_raw_erased(), c.get_raw_erased());
    assert_eq!(a.len(&heap), 4);
    assert_eq!(c.len(&heap), 6);
    b.destroy(&mut heap);
    a.destroy(&mut heap);
    c.destroy(&mut heap);
    assert_eq!(
        heap.finalized().as_slice(),
        &[Kind::FsFailure, Kind::Ints4, Kind::Ints6]
    );
}
