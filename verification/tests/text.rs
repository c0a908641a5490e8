use disemvowel::disemvowel;

#[test]
fn hello_world() {
    let input = "Hello, world!";
    let expected = "Hll, wrld!";

    assert_eq!(expected, disemvowel(input));
}

#[test]
fn empty() {
    assert_eq!("", disemvowel(""));
}

#[test]
fn no_vowels() {
    assert_eq!("pqrst", disemvowel("pqrst"));
}

#[test]
fn all_vowels() {
    assert_eq!("", disemvowel("aeiouAEIOUOIEAuoiea"));
}

#[test]
fn morris_minnesota() {
    assert_eq!("Mrrs, Mnnst", disemvowel("Morris, Minnesota"));
}

#[test]
fn handle_punctuation() {
    assert_eq!(
        "n (nxplnd) lphnt!",
        disemvowel("An (Unexplained) Elephant!")
    );
}

#[test]
fn handle_unicode() {
    assert_eq!("Sm hrglyphs: ğ’	ğ’Œ	ğ’¥	ğ’‘³", disemvowel("Some hieroglyphs: ğ’	ğ’Œ	ğ’¥	ğ’‘³"));
    assert_eq!("Sm Lnr B: 	ğ‚€	ğ‚š	ğƒƒ	ğƒº", disemvowel("Some Linear B: 	ğ‚€	ğ‚š	ğƒƒ	ğƒº"));
    assert_eq!(" lttl Phncn: ğ¤€	ğ¤ˆ	ğ¤”	ğ¤•", disemvowel("A little Phoenician: ğ¤€	ğ¤ˆ	ğ¤”	ğ¤•"));
    assert_eq!(
        "W cn hndl mj s wll! ğŸ¤£ğŸ˜ƒğŸ‘",
        disemvowel("We can handle emoji as well! ğŸ¤£ğŸ˜ƒğŸ‘")
    )
}

#[test]
fn no_vowels_remain_in_output() {
    let out = disemvowel("The quick brown fox JUMPS over the lazy DOG");
    for c in out.chars() {
        assert!(!"aeiouAEIOU".contains(c));
    }
}

#[test]
fn output_is_ordered_subsequence() {
    let input = "An (Unexplained) Elephant!";
    let out = disemvowel(input);
    let mut rest = input.chars();
    for c in out.chars() {
        assert!(rest.any(|d| d == c));
    }
}

#[test]
fn output_no_longer_than_input() {
    let input = "Morris, Minnesota";
    let out = disemvowel(input);
    assert!(out.chars().count() <= input.chars().count());
}

#[test]
fn second_pass_changes_nothing() {
    let once = disemvowel("We can handle emoji as well!");
    let twice = disemvowel(&once);
    assert_eq!(once, twice);
}
