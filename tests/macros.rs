use exemplar::discriminant_index;

#[derive(Debug, Clone, Copy, PartialEq, Eq, Hash)]
enum Color {
    Red,
    Green,
    Blue,
}

const COLORS: [Color; 3] = [Color::Red, Color::Green, Color::Blue];

impl TryFrom<i64> for Color {
    type Error = String;

    fn try_from(value: i64) -> Result<Self, Self::Error> {
        match discriminant_index(value, COLORS.len()) {
            Some(i) => Ok(COLORS[i]),
            None => Err(format!("No discriminant in enum `Color` matches the value `{value}`")),
        }
    }
}

#[test]
fn conversion() {
    assert_eq!(0, Color::Red as i64);
    assert_eq!(1, Color::Green as i64);
    assert_eq!(2, Color::Blue as i64);

    assert_eq!(Color::Red, Color::try_from(0).unwrap());
    assert_eq!(Color::Green, Color::try_from(1).unwrap());
    assert_eq!(Color::Blue, Color::try_from(2).unwrap());
}

#[test]
fn safety() {
    assert!(Color::try_from(-1).is_err());
    assert!(Color::try_from(i64::MIN).is_err());
    assert!(Color::try_from(i64::MAX).is_err());
    assert!(Color::try_from(3).is_err());
}

#[test]
fn discriminant_bounds() {
    assert_eq!(discriminant_index(0, 0), None);
    assert_eq!(discriminant_index(0, 1), Some(0));
    assert_eq!(discriminant_index(255, 256), Some(255));
    assert_eq!(discriminant_index(256, 256), None);
    assert_eq!(discriminant_index(-5, 10), None);
}
