use tagged_heap::error::HeapError;
use tagged_heap::error::TableError;
use tagged_heap::heap::Heap;
use tagged_heap::roots::ClosureTable;
use tagged_heap::scan::scan;
use tagged_heap::tag::object_size;
use tagged_heap::tag::TAG_ARRAY;
use tagged_heap::tag::TAG_CONCAT;
use tagged_heap::tag::TAG_VARIANT;
use tagged_heap::tag::TAG_SOME;
use tagged_heap::tag::TAG_OBJ_IND;
use tagged_heap::tag::TAG_CLOSURE;
use tagged_heap::tag::TAG_BIGINT;
use tagged_heap::tag::TAG_BITS32;
use tagged_heap::tag::TAG_BITS64;
use tagged_heap::tag::TAG_BLOB;
use tagged_heap::tag::TAG_FWD_PTR;
use tagged_heap::tag::TAG_MUTBOX;
use tagged_heap::tag::TAG_OBJECT;
use tagged_heap::value::is_scalar;
use tagged_heap::value::scalar_from;
use tagged_heap::value::scalar_payload;
use tagged_heap::value::skew;
use tagged_heap::value::unskew;
use tagged_heap::walker::visit;

fn heap_at_4(words: Vec<u32>) -> Heap {
    Heap::new(4, words).expect("valid heap layout")
}

#[test]
fn skew_round_trip() {
    for a in [4u32, 8, 0x100, 0xabc0, 0xffff_fffc] {
        assert_eq!(unskew(skew(a)), a);
        assert!(!is_scalar(skew(a)));
    }
}

#[test]
fn scalar_packing() {
    assert_eq!(scalar_from(0), 0);
    assert_eq!(scalar_from(21), 42);
    assert!(is_scalar(scalar_from(21)));
    assert_eq!(scalar_payload(scalar_from(21)), 21);
    assert_eq!(scalar_payload(scalar_from(0x7fff_ffff)), 0x7fff_ffff);
}

#[test]
fn heap_layout_is_validated() {
    assert_eq!(Heap::new(2, vec![0]).err(), Some(HeapError::OutOfHeap));
    assert_eq!(Heap::new(0, vec![0]).err(), Some(HeapError::OutOfHeap));
    let h = Heap::new(8, vec![7, 9]).expect("aligned base is fine");
    assert_eq!(h.end(), 16);
    assert!(h.contains_addr(8));
    assert!(h.contains_addr(12));
    assert!(!h.contains_addr(16));
    assert!(!h.contains_addr(10));
    assert_eq!(h.load(12), 9);
}

#[test]
fn size_formulas_per_shape() {
    // Array of 3 elements: 2 header words + 3.
    let h = heap_at_4(vec![TAG_ARRAY, 3, 0, 0, 0]);
    assert_eq!(object_size(&h, 4), Ok(5));

    // Blob of 5 bytes: 2 header words + 2 packed words.
    let h = heap_at_4(vec![TAG_BLOB, 5, 0, 0]);
    assert_eq!(object_size(&h, 4), Ok(4));

    // Object with 2 fields: 3 header words + 2.
    let h = heap_at_4(vec![TAG_OBJECT, 2, 0, 0, 0]);
    assert_eq!(object_size(&h, 4), Ok(5));

    // Big integer with 2 allocated limbs: 4 header words + 2.
    let h = heap_at_4(vec![TAG_BIGINT, 1, 2, 2, 0, 0]);
    assert_eq!(object_size(&h, 4), Ok(6));

    // Boxed 64-bit word: tag plus two payload words.
    let h = heap_at_4(vec![TAG_BITS64, 0, 0]);
    assert_eq!(object_size(&h, 4), Ok(3));

    // Closure capturing 2 values: 3 header words + 2.
    let h = heap_at_4(vec![TAG_CLOSURE, 0, 2, 0, 0]);
    assert_eq!(object_size(&h, 4), Ok(5));

    // The fixed-size shapes.
    for (tag, words) in [
        (TAG_OBJ_IND, 2u64),
        (TAG_MUTBOX, 2),
        (TAG_SOME, 2),
        (TAG_FWD_PTR, 2),
        (TAG_BITS32, 2),
        (TAG_VARIANT, 3),
        (TAG_CONCAT, 4),
    ] {
        let h = heap_at_4(vec![tag, 0, 0, 0]);
        assert_eq!(object_size(&h, 4), Ok(words));
    }

    // An empty Blob is its two header words alone.
    let h = heap_at_4(vec![TAG_BLOB, 0]);
    assert_eq!(object_size(&h, 4), Ok(2));
}

#[test]
fn size_faults() {
    let h = heap_at_4(vec![99, 0, 0]);
    assert_eq!(object_size(&h, 4), Err(HeapError::UnknownTag));

    // An array tag in the very last word: its header cannot fit.
    let h = heap_at_4(vec![0, 0, TAG_ARRAY]);
    assert_eq!(object_size(&h, 12), Err(HeapError::TruncatedObject));
}

#[test]
fn closure_table_add_get_remove() {
    let mut t = ClosureTable::new();
    let i0 = t.add(15);
    let i1 = t.add(31);
    assert_eq!(i0, 0);
    assert_eq!(i1, 1);
    assert_eq!(t.get(i0), Ok(15));
    assert_eq!(t.get(i1), Ok(31));

    assert_eq!(t.remove(i0), Ok(()));
    assert_eq!(t.get(i0), Err(TableError::SlotFree));
    // The freed slot is reused before any new slot is made...
    let i2 = t.add(47);
    assert_eq!(i2, i0);
    assert_eq!(t.len(), 2);
    // ...and a live slot is never handed out again.
    let i3 = t.add(63);
    assert_eq!(i3, 2);
    assert_eq!(t.get(i1), Ok(31));
}

#[test]
fn closure_table_misuse_is_graceful() {
    let mut t = ClosureTable::new();
    assert_eq!(t.get(0), Err(TableError::IndexOutOfRange));
    assert_eq!(t.remove(5), Err(TableError::IndexOutOfRange));
    let i = t.add(9);
    assert_eq!(t.remove(i), Ok(()));
    assert_eq!(t.remove(i), Err(TableError::SlotFree));
    assert_eq!(t.len(), 1);
}

#[test]
fn scan_accounts_for_every_byte() {
    // MutBox, Array of 1, Blob of 1 byte, laid out back to back.
    let h = heap_at_4(vec![
        TAG_MUTBOX, 0, // 4..12
        TAG_ARRAY, 1, 0, // 12..24
        TAG_BLOB, 1, 0, // 24..36
    ]);
    let end = h.end();
    let addrs = scan(&h, 4, end).expect("gap-free heap scans");
    assert_eq!(addrs, vec![4, 12, 24]);

    let mut total = 0u64;
    for &a in &addrs {
        total += 4 * object_size(&h, a).expect("sized");
    }
    assert_eq!(total, (end - 4) as u64);
}

#[test]
fn scan_of_empty_region() {
    let h = heap_at_4(vec![TAG_MUTBOX, 0]);
    assert_eq!(scan(&h, 4, 4), Ok(vec![]));
}

#[test]
fn scan_faults() {
    // The array claims more elements than the heap holds.
    let h = heap_at_4(vec![TAG_ARRAY, 50, 0]);
    assert_eq!(scan(&h, 4, h.end()), Err(HeapError::Overshoot));

    // A tag that names no shape.
    let h = heap_at_4(vec![77, 0]);
    assert_eq!(scan(&h, 4, h.end()), Err(HeapError::UnknownTag));

    // A scan that starts outside the heap.
    let h = heap_at_4(vec![TAG_MUTBOX, 0]);
    assert_eq!(scan(&h, 16, 20), Err(HeapError::OutOfHeap));

    // A scan limit past the heap's end cannot make a too-long object pass:
    // the array's body leaves the heap even though it stays under `end`.
    let h = heap_at_4(vec![TAG_ARRAY, 3]);
    assert_eq!(scan(&h, 4, 24), Err(HeapError::TruncatedObject));
}

#[test]
fn walker_discovers_object_array_blob_in_order() {
    // An Object whose field references an Array whose element references
    // a Blob: the walk reports each exactly once, in that order.
    let h = heap_at_4(vec![
        TAG_OBJECT, 1, 0, skew(20), // 4..20
        TAG_ARRAY, 1, skew(32), // 20..32
        TAG_BLOB, 4, 0, // 32..44
    ]);
    let visited = visit(&h, skew(4), 100).expect("acyclic graph walks");
    assert_eq!(visited, vec![4, 20, 32]);
}

#[test]
fn walker_treats_scalars_as_leaves() {
    let h = heap_at_4(vec![TAG_MUTBOX, scalar_from(7)]);
    assert_eq!(visit(&h, scalar_from(7), 10), Ok(vec![]));
    assert_eq!(visit(&h, skew(4), 10), Ok(vec![4]));
}

#[test]
fn walker_follows_forwarding_without_recording_it() {
    let h = heap_at_4(vec![
        TAG_FWD_PTR, skew(12), // 4..12
        TAG_BITS32, 7, // 12..20
    ]);
    assert_eq!(visit(&h, skew(4), 10), Ok(vec![12]));
}

#[test]
fn walker_reports_exhausted_budget() {
    let h = heap_at_4(vec![TAG_BITS32, 7]);
    assert_eq!(visit(&h, skew(4), 0), Err(HeapError::OutOfFuel));
    // A scalar costs no budget at all.
    assert_eq!(visit(&h, scalar_from(3), 0), Ok(vec![]));
}

#[test]
fn walker_faults() {
    let h = heap_at_4(vec![TAG_MUTBOX, 5]);
    // 5 is 1 modulo 4: neither a scalar nor a skewed pointer.
    assert_eq!(visit(&h, 5, 10), Err(HeapError::BadReference));
    // A pointer that leaves the heap.
    assert_eq!(visit(&h, skew(64), 10), Err(HeapError::OutOfHeap));
    // A referenced word that carries no known tag.
    let h = heap_at_4(vec![TAG_MUTBOX, skew(12), 88, 0]);
    assert_eq!(visit(&h, skew(4), 10), Err(HeapError::UnknownTag));
}
