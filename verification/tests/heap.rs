use bump_heap::Heap;
use bump_heap::Inline;

#[test]
fn test_heap() {
    let mut heap: Heap<Inline<100>> = Heap::new();
    assert_eq!(heap.remained(), 100);
    let p0 = heap.base_address();
    let p1 = heap.base_address();
    assert_eq!(p0, p1);
    let p2 = heap.raw_alloc(8, 8).unwrap();
    assert_eq!(heap.remained(), 88);
    assert_eq!(p2 - p1, 88);

    heap.raw_alloc(4, 4);
    assert_eq!(heap.remained(), 84);
}

#[test]
fn test_heap_pointer() {
    const HEAP_SIZE: usize = 100;
    // The library only does address arithmetic and never touches the bytes, so
    // any address stands in for the external region's base here.
    const HEAP_MEM: usize = 0x1000;
    let mut heap = Heap::empty();
    heap.init_with_ptr(HEAP_MEM, HEAP_SIZE);
    let p0 = HEAP_MEM;
    let p1 = heap.base_address();
    assert_eq!(p0, p1);
    let p2 = heap.raw_alloc(8, 8).unwrap();
    assert_eq!(heap.remained(), 88);
    assert_eq!(p2 - p1, 88);
}

#[test]
fn test_heap_dynamic() {
    let mut heap = Heap::new_boxed(100);
    assert_eq!(heap.remained(), 100);
    let p0 = heap.base_address();
    let p1 = heap.base_address();
    assert_eq!(p0, p1);
    let p2 = heap.raw_alloc(8, 8).unwrap();
    assert_eq!(heap.remained(), 88);
    assert_eq!(p2 - p1, 88);

    heap.raw_alloc(4, 4);
    assert_eq!(heap.remained(), 84);
}

#[test]
fn test_heap_local() {
    let _heap: Heap<Inline<100>> = Heap::new();
}
