use custom_allocator::MemoryConsumption;

/// A value that reports a fixed count.
struct Child(usize);

impl MemoryConsumption for Child {
    fn memory_consumption(&self) -> usize {
        self.0
    }
}

/// A value with nothing on the heap.
struct Plain;

impl MemoryConsumption for Plain {
    fn memory_consumption(&self) -> usize {
        0
    }
}

/// A value with a header on the heap and children that it owns.
struct Parent {
    header: usize,
    children: Vec<Child>,
}

impl MemoryConsumption for Parent {
    fn memory_consumption(&self) -> usize {
        let mut total = self.header;
        for child in &self.children {
            total += child.memory_consumption();
        }
        total
    }
}

/// A value whose children are themselves composed.
struct Grandparent {
    header: usize,
    children: Vec<Parent>,
}

impl MemoryConsumption for Grandparent {
    fn memory_consumption(&self) -> usize {
        let mut total = self.header;
        for child in &self.children {
            total += child.memory_consumption();
        }
        total
    }
}

fn family() -> Parent {
    Parent { header: 8, children: vec![Child(10), Child(20), Child(30)] }
}

#[test]
fn consumption_adds_header_and_children() {
    assert_eq!(family().memory_consumption(), 68);
}

#[test]
fn consumption_without_heap_content_is_zero() {
    assert_eq!(Plain.memory_consumption(), 0);
    assert_eq!(Parent { header: 0, children: Vec::new() }.memory_consumption(), 0);
}

#[test]
fn consumption_is_recursive() {
    let top = Grandparent { header: 4, children: vec![family(), family()] };
    assert_eq!(top.memory_consumption(), 4 + 68 + 68);
}

#[test]
fn consumption_is_stable_between_changes() {
    let mut value = family();
    let first = value.memory_consumption();
    let second = value.memory_consumption();
    assert_eq!(first, second);
    assert_eq!(first, 68);
    value.children.push(Child(5));
    assert_eq!(value.memory_consumption(), 73);
    assert_eq!(value.memory_consumption(), 73);
}

fn report<T: MemoryConsumption>(value: &T) -> usize {
    value.memory_consumption()
}

#[test]
fn consumption_through_a_generic_caller() {
    assert_eq!(report(&Child(10)), 10);
    assert_eq!(report(&family()), 68);
}
