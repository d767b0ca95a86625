use fluffy_fiesta::utils::one_rest_split_iter;

struct NonTrivialThing {
    i: i32,
}

impl NonTrivialThing {
    fn smthg(&mut self, _r: &mut Vec<NonTrivialThing>) -> String {
        format!("{}", self.i)
    }
}

impl std::fmt::Debug for NonTrivialThing {
    fn fmt(&self, f: &mut std::fmt::Formatter) -> std::fmt::Result {
        f.write_str(&format!("{}", self.i))
    }
}

fn thing(i: i32) -> NonTrivialThing {
    NonTrivialThing { i: i }
}

#[test]
fn test_iter() {
    let mut v = vec![thing(0), thing(1), thing(2), thing(3)];
    println!("{:?}", v);
    let mut seen: Vec<(String, String)> = Vec::new();
    one_rest_split_iter(&mut v, |i, r| {
        println!("{} {:?}", i.smthg(r), r);
        seen.push((i.smthg(r), format!("{:?}", r)));
    });
    let expected: Vec<(String, String)> = vec![
        ("0".to_string(), "[1, 2, 3]".to_string()),
        ("1".to_string(), "[0, 2, 3]".to_string()),
        ("2".to_string(), "[0, 1, 3]".to_string()),
        ("3".to_string(), "[0, 1, 2]".to_string()),
    ];
    assert_eq!(seen, expected);
    assert_eq!(format!("{:?}", v), "[0, 1, 2, 3]");
}

#[test]
fn each_item_is_called_once_beside_the_others() {
    let mut v = vec![10, 20, 30];
    let mut calls: Vec<(i32, Vec<i32>)> = Vec::new();
    one_rest_split_iter(&mut v, |one, rest| {
        calls.push((*one, rest.clone()));
        *one += 1;
    });
    assert_eq!(
        calls,
        vec![(10, vec![20, 30]), (20, vec![11, 30]), (30, vec![11, 21])]
    );
    assert_eq!(v, vec![11, 21, 31]);
}

#[test]
fn single_item_is_called_beside_nothing() {
    let mut v = vec![7];
    let mut calls = 0;
    one_rest_split_iter(&mut v, |one, rest| {
        assert!(rest.is_empty());
        *one *= 2;
        calls += 1;
    });
    assert_eq!(calls, 1);
    assert_eq!(v, vec![14]);
}

#[test]
fn items_added_by_the_first_call_are_called_too() {
    let mut v = vec![1, 2];
    let mut seen = Vec::new();
    one_rest_split_iter(&mut v, |one, rest| {
        seen.push(*one);
        if *one == 1 {
            rest.push(100);
        }
        if *one == 2 {
            rest.push(200);
        }
    });
    // 100 came in during the first call and has its call; 200 came later
    assert_eq!(seen, vec![1, 2, 100]);
    assert_eq!(v, vec![1, 2, 200, 100]);
}

#[test]
fn a_call_may_change_the_others() {
    let mut v = vec![1, 2, 3];
    one_rest_split_iter(&mut v, |one, rest| {
        for other in rest.iter_mut() {
            *other += *one * 10;
        }
    });
    // 1 adds 10 to the others, then 12 adds 120, then 133 adds 1330
    assert_eq!(v, vec![1 + 120 + 1330, 12 + 1330, 133]);
}
