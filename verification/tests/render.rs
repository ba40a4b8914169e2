use tagged_heap::dump::dump_heap;
use tagged_heap::dump::render_closure_table;
use tagged_heap::dump::render_static_roots;
use tagged_heap::error::HeapError;
use tagged_heap::format::format_value;
use tagged_heap::format::render_boxed_object;
use tagged_heap::format::render_value;
use tagged_heap::heap::Heap;
use tagged_heap::roots::ClosureTable;
use tagged_heap::scan::scan;
use tagged_heap::sink::Sink;
use tagged_heap::tag::TAG_ARRAY;
use tagged_heap::tag::TAG_BITS32;
use tagged_heap::tag::TAG_BITS64;
use tagged_heap::tag::TAG_SOME;
use tagged_heap::value::scalar_from;
use tagged_heap::value::skew;

fn text(bytes: &[u8]) -> String {
    String::from_utf8(bytes.to_vec()).expect("rendered text is ASCII")
}

#[test]
fn sink_drops_what_exceeds_capacity() {
    let mut s = Sink::new(5);
    s.write(b"hello world");
    assert_eq!(s.bytes().as_slice(), b"hello");
    assert!(s.overflowed());
    // A full sink swallows later writes whole.
    s.write(b"more");
    assert_eq!(s.bytes().as_slice(), b"hello");
}

#[test]
fn sink_keeps_what_fits() {
    let mut s = Sink::new(10);
    s.write(b"abc");
    s.write(b"def");
    assert_eq!(s.bytes().as_slice(), b"abcdef");
    assert!(!s.overflowed());
}

#[test]
fn scalars_render_in_hex() {
    let h = Heap::new(4, vec![TAG_BITS32, 7]).unwrap();
    assert_eq!(text(&render_value(&h, scalar_from(0))), "<Scalar 0x0>");
    assert_eq!(text(&render_value(&h, 42)), "<Scalar 0x2a>");
    assert_eq!(text(&render_value(&h, 0x1ffe)), "<Scalar 0x1ffe>");
}

#[test]
fn boxed_objects_render_with_address() {
    let h = Heap::new(4, vec![TAG_SOME, scalar_from(3)]).unwrap();
    assert_eq!(text(&render_value(&h, skew(4))), "0x4: <Some field=0x6>");
    assert_eq!(text(&render_boxed_object(&h, 4)), "0x4: <Some field=0x6>");
}

#[test]
fn wide_words_render_whole() {
    let h = Heap::new(4, vec![TAG_BITS64, 0, 1]).unwrap();
    assert_eq!(text(&render_boxed_object(&h, 4)), "0x4: <Bits64 0x100000000>");
}

#[test]
fn broken_references_render_as_markers() {
    let h = Heap::new(4, vec![TAG_BITS32, 7]).unwrap();
    assert_eq!(text(&render_value(&h, 9)), "<Invalid 0x9>");
    assert_eq!(text(&render_boxed_object(&h, 64)), "0x40: <out of heap>");
    let h = Heap::new(4, vec![66, 0]).unwrap();
    assert_eq!(text(&render_boxed_object(&h, 4)), "0x4: <??? 0x42 ???>");
    let h = Heap::new(4, vec![TAG_ARRAY, 50, 0]).unwrap();
    assert_eq!(text(&render_boxed_object(&h, 4)), "0x4: <truncated object>");
}

#[test]
fn long_arrays_render_ten_elements_and_a_marker() {
    let mut words = vec![TAG_ARRAY, 12];
    for k in 0..12u32 {
        words.push(scalar_from(k));
    }
    let h = Heap::new(4, words).unwrap();
    let t = text(&render_boxed_object(&h, 4));
    assert_eq!(
        t,
        "0x4: <Array len=0xc 0x0 0x2 0x4 0x6 0x8 0xa 0xc 0xe 0x10 0x12 ...>"
    );
}

#[test]
fn formatting_never_overflows_the_sink() {
    let h = Heap::new(4, vec![TAG_SOME, scalar_from(3)]).unwrap();
    let mut s = Sink::new(8);
    format_value(&h, skew(4), &mut s);
    assert_eq!(s.bytes().as_slice(), b"0x4: <So");
    assert!(s.overflowed());
}

#[test]
fn closure_table_sections() {
    let h = Heap::new(4, vec![TAG_BITS32, 5]).unwrap();
    let empty = ClosureTable::new();
    assert_eq!(text(&render_closure_table(&h, &empty)), "Closure table empty\n");

    let mut tbl = ClosureTable::new();
    tbl.add(scalar_from(7));
    tbl.add(skew(4));
    let t = text(&render_closure_table(&h, &tbl));
    assert_eq!(
        t,
        "Closure table: 0x2\n0x1: 0x4: <Bits32 0x5>\nEnd of closure table\n"
    );
}

#[test]
fn static_roots_need_an_array() {
    let h = Heap::new(4, vec![TAG_BITS32, 5]).unwrap();
    assert_eq!(render_static_roots(&h, 9).err(), Some(HeapError::BadReference));
    assert_eq!(
        render_static_roots(&h, skew(4)).err(),
        Some(HeapError::BadReference)
    );
    let h = Heap::new(4, vec![TAG_ARRAY, 1, scalar_from(3)]).unwrap();
    let t = text(&render_static_roots(&h, skew(4)).unwrap());
    assert_eq!(
        t,
        "Static roots at 0x4\nStatic roots: 0x1\n0x0: 0xc --> <Scalar 0x6>\nEnd of static roots\n"
    );
}

#[test]
fn empty_static_roots_still_name_their_array() {
    let h = Heap::new(4, vec![TAG_ARRAY, 0]).unwrap();
    let t = text(&render_static_roots(&h, skew(4)).unwrap());
    assert_eq!(t, "Static roots at 0x4\nStatic roots empty\n");
}

#[test]
fn whole_heap_dump() {
    // One Array of length 3 holding three boxed 32-bit values that follow
    // it contiguously.
    let h = Heap::new(
        4,
        vec![
            TAG_ARRAY,
            3,
            skew(24),
            skew(32),
            skew(40), // 4..24
            TAG_BITS32,
            1, // 24..32
            TAG_BITS32,
            2, // 32..40
            TAG_BITS32,
            3, // 40..48
        ],
    )
    .unwrap();
    let end = h.end();
    assert_eq!(end, 48);

    // The scan sees exactly the four objects, in address order.
    assert_eq!(scan(&h, 4, end), Ok(vec![4, 24, 32, 40]));

    let tbl = ClosureTable::new();
    let mut sink = Sink::new(4096);
    dump_heap(&h, &tbl, skew(4), 4, end, &mut sink).expect("dump succeeds");
    let t = text(sink.bytes());

    let heap_part = t.split("Heap begin=0x4 end=0x30 size=0x2c\n").nth(1).unwrap();
    let array_at = heap_part.find("0x4: <Array len=0x3 0x17 0x1f 0x27>").unwrap();
    let b1 = heap_part.find("0x18: <Bits32 0x1>").unwrap();
    let b2 = heap_part.find("0x20: <Bits32 0x2>").unwrap();
    let b3 = heap_part.find("0x28: <Bits32 0x3>").unwrap();
    assert!(array_at < b1 && b1 < b2 && b2 < b3);
    assert!(t.starts_with("Closure table empty\n"));
    assert!(t.contains("Static roots: 0x3\n"));
    assert!(!sink.overflowed());
}

#[test]
fn dump_leaves_sink_alone_on_a_fault() {
    let h = Heap::new(4, vec![TAG_BITS32, 5]).unwrap();
    let tbl = ClosureTable::new();
    let mut sink = Sink::new(64);
    // The roots word is no reference at all.
    let r = dump_heap(&h, &tbl, 9, 4, h.end(), &mut sink);
    assert_eq!(r, Err(HeapError::BadReference));
    assert!(sink.bytes().is_empty());
}
