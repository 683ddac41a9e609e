use vstd::prelude::*;

verus! {

/// An emoji of the short authentication string, with its English name.
#[derive(Clone, Copy, Debug, PartialEq, Eq)]
pub struct Emoji {
    pub symbol: &'static str,
    pub description: &'static str,
}

/// The English name of the emoji with index `i` in the table of the SAS
/// method; the index is taken modulo 64.
pub open spec fn emoji_description(i: u8) -> Seq<char> {
    match i % 64 {
        0u8 => "Dog"@,
        1u8 => "Cat"@,
        2u8 => "Lion"@,
        3u8 => "Horse"@,
        4u8 => "Unicorn"@,
        5u8 => "Pig"@,
        6u8 => "Elephant"@,
        7u8 => "Rabbit"@,
        8u8 => "Panda"@,
        9u8 => "Rooster"@,
        10u8 => "Penguin"@,
        11u8 => "Turtle"@,
        12u8 => "Fish"@,
        13u8 => "Octopus"@,
        14u8 => "Butterfly"@,
        15u8 => "Flower"@,
        16u8 => "Tree"@,
        17u8 => "Cactus"@,
        18u8 => "Mushroom"@,
        19u8 => "Globe"@,
        20u8 => "Moon"@,
        21u8 => "Cloud"@,
        22u8 => "Fire"@,
        23u8 => "Banana"@,
        24u8 => "Apple"@,
        25u8 => "Strawberry"@,
        26u8 => "Corn"@,
        27u8 => "Pizza"@,
        28u8 => "Cake"@,
        29u8 => "Heart"@,
        30u8 => "Smiley"@,
        31u8 => "Robot"@,
        32u8 => "Hat"@,
        33u8 => "Glasses"@,
        34u8 => "Spanner"@,
        35u8 => "Santa"@,
        36u8 => "Thumbs Up"@,
        37u8 => "Umbrella"@,
        38u8 => "Hourglass"@,
        39u8 => "Clock"@,
        40u8 => "Gift"@,
        41u8 => "Light Bulb"@,
        42u8 => "Book"@,
        43u8 => "Pencil"@,
        44u8 => "Paperclip"@,
        45u8 => "Scissors"@,
        46u8 => "Lock"@,
        47u8 => "Key"@,
        48u8 => "Hammer"@,
        49u8 => "Telephone"@,
        50u8 => "Flag"@,
        51u8 => "Train"@,
        52u8 => "Bicycle"@,
        53u8 => "Aeroplane"@,
        54u8 => "Rocket"@,
        55u8 => "Trophy"@,
        56u8 => "Ball"@,
        57u8 => "Guitar"@,
        58u8 => "Trumpet"@,
        59u8 => "Bell"@,
        60u8 => "Anchor"@,
        61u8 => "Headphones"@,
        62u8 => "Folder"@,
        _ => "Pin"@,
    }
}

/// The emoji with index `i` in the table of the SAS method.
pub fn emoji_from_index(i: u8) -> (r: Emoji)
    requires
        i < 64,
    ensures
        r.description@ == emoji_description(i),
{
    match i {
        0u8 => Emoji { symbol: "🐶", description: "Dog" },
        1u8 => Emoji { symbol: "🐱", description: "Cat" },
        2u8 => Emoji { symbol: "🦁", description: "Lion" },
        3u8 => Emoji { symbol: "🐎", description: "Horse" },
        4u8 => Emoji { symbol: "🦄", description: "Unicorn" },
        5u8 => Emoji { symbol: "🐷", description: "Pig" },
        6u8 => Emoji { symbol: "🐘", description: "Elephant" },
        7u8 => Emoji { symbol: "🐰", description: "Rabbit" },
        8u8 => Emoji { symbol: "🐼", description: "Panda" },
        9u8 => Emoji { symbol: "🐓", description: "Rooster" },
        10u8 => Emoji { symbol: "🐧", description: "Penguin" },
        11u8 => Emoji { symbol: "🐢", description: "Turtle" },
        12u8 => Emoji { symbol: "🐟", description: "Fish" },
        13u8 => Emoji { symbol: "🐙", description: "Octopus" },
        14u8 => Emoji { symbol: "🦋", description: "Butterfly" },
        15u8 => Emoji { symbol: "🌷", description: "Flower" },
        16u8 => Emoji { symbol: "🌳", description: "Tree" },
        17u8 => Emoji { symbol: "🌵", description: "Cactus" },
        18u8 => Emoji { symbol: "🍄", description: "Mushroom" },
        19u8 => Emoji { symbol: "🌏", description: "Globe" },
        20u8 => Emoji { symbol: "🌙", description: "Moon" },
        21u8 => Emoji { symbol: "☁️", description: "Cloud" },
        22u8 => Emoji { symbol: "🔥", description: "Fire" },
        23u8 => Emoji { symbol: "🍌", description: "Banana" },
        24u8 => Emoji { symbol: "🍎", description: "Apple" },
        25u8 => Emoji { symbol: "🍓", description: "Strawberry" },
        26u8 => Emoji { symbol: "🌽", description: "Corn" },
        27u8 => Emoji { symbol: "🍕", description: "Pizza" },
        28u8 => Emoji { symbol: "🎂", description: "Cake" },
        29u8 => Emoji { symbol: "❤️", description: "Heart" },
        30u8 => Emoji { symbol: "😀", description: "Smiley" },
        31u8 => Emoji { symbol: "🤖", description: "Robot" },
        32u8 => Emoji { symbol: "🎩", description: "Hat" },
        33u8 => Emoji { symbol: "👓", description: "Glasses" },
        34u8 => Emoji { symbol: "🔧", description: "Spanner" },
        35u8 => Emoji { symbol: "🎅", description: "Santa" },
        36u8 => Emoji { symbol: "👍", description: "Thumbs Up" },
        37u8 => Emoji { symbol: "☂️", description: "Umbrella" },
        38u8 => Emoji { symbol: "⌛", description: "Hourglass" },
        39u8 => Emoji { symbol: "⏰", description: "Clock" },
        40u8 => Emoji { symbol: "🎁", description: "Gift" },
        41u8 => Emoji { symbol: "💡", description: "Light Bulb" },
        42u8 => Emoji { symbol: "📕", description: "Book" },
        43u8 => Emoji { symbol: "✏️", description: "Pencil" },
        44u8 => Emoji { symbol: "📎", description: "Paperclip" },
        45u8 => Emoji { symbol: "✂️", description: "Scissors" },
        46u8 => Emoji { symbol: "🔒", description: "Lock" },
        47u8 => Emoji { symbol: "🔑", description: "Key" },
        48u8 => Emoji { symbol: "🔨", description: "Hammer" },
        49u8 => Emoji { symbol: "☎️", description: "Telephone" },
        50u8 => Emoji { symbol: "🏁", description: "Flag" },
        51u8 => Emoji { symbol: "🚂", description: "Train" },
        52u8 => Emoji { symbol: "🚲", description: "Bicycle" },
        53u8 => Emoji { symbol: "✈️", description: "Aeroplane" },
        54u8 => Emoji { symbol: "🚀", description: "Rocket" },
        55u8 => Emoji { symbol: "🏆", description: "Trophy" },
        56u8 => Emoji { symbol: "⚽", description: "Ball" },
        57u8 => Emoji { symbol: "🎸", description: "Guitar" },
        58u8 => Emoji { symbol: "🎺", description: "Trumpet" },
        59u8 => Emoji { symbol: "🔔", description: "Bell" },
        60u8 => Emoji { symbol: "⚓", description: "Anchor" },
        61u8 => Emoji { symbol: "🎧", description: "Headphones" },
        62u8 => Emoji { symbol: "📁", description: "Folder" },
        _ => Emoji { symbol: "📌", description: "Pin" },
    }
}

} // verus!
