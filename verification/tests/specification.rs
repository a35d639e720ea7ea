use babangida::domain::{Combine, Specification};

struct GreaterThan(i32);
struct EvenNumber;

impl Specification<i32> for GreaterThan {
    fn satisfied_by(&self, candidate: &i32) -> bool {
        *candidate > self.0
    }

    fn is_satisfied_by(&self, candidate: &i32) -> bool {
        *candidate > self.0
    }
}

impl Specification<i32> for EvenNumber {
    fn satisfied_by(&self, candidate: &i32) -> bool {
        *candidate % 2 == 0
    }

    fn is_satisfied_by(&self, candidate: &i32) -> bool {
        *candidate % 2 == 0
    }
}

#[test]
fn combinators_compose() {
    let spec = GreaterThan(10).and(EvenNumber);
    assert!(spec.is_satisfied_by(&12));
    assert!(!spec.is_satisfied_by(&11));
    assert!(!spec.is_satisfied_by(&8));

    let spec = GreaterThan(10).or(EvenNumber);
    assert!(spec.is_satisfied_by(&8));

    let spec = EvenNumber.negate();
    assert!(spec.is_satisfied_by(&7));
}
