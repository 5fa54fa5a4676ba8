//! The built-in product catalog the service starts from.

use vstd::prelude::*;
use vstd::string::StringExecFns;

use crate::configuration::Settings;
use crate::engine::MAX_PRICE_CENTS;
use crate::engine::MIN_DESCRIPTION_CHARS;
use crate::model::Product;
use crate::model::ProductModel;

verus! {

/// A record the shipped rule modules accept: its description is long enough
/// and its price is within the cap.
pub open spec fn conforms(p: ProductModel) -> bool {
    &&& p.description.len() >= MIN_DESCRIPTION_CHARS
    &&& p.price_cents <= MAX_PRICE_CENTS
}

/// The ten catalog records, numbered from one, each of which the shipped
/// rule modules accept.
pub fn fetch_products(_settings: &Settings) -> (r: Vec<Product>)
    ensures
        r@.len() == 10,
        forall|i: int| 0 <= i < 10 ==> (#[trigger] r@[i])@.id == i + 1,
        forall|i: int| 0 <= i < 10 ==> conforms((#[trigger] r@[i])@),
{
    let products = vec![
        Product {
            id: 1,
            name: String::from_str("Contoso Catnip's Friend"),
            price_cents: 999,
            description: String::from_str(
                "Watch your feline friend embark on a fishing adventure with Contoso Catnip's Friend toy. Packed with irresistible catnip and dangling fish lure.",
            ),
            image: String::from_str("/catnip.jpg"),
        },
        Product {
            id: 2,
            name: String::from_str("Salty Sailor's Squeaky Squid"),
            price_cents: 699,
            description: String::from_str(
                "Let your dog set sail with the Salty Sailor's Squeaky Squid. This interactive toy provides hours of fun, featuring multiple squeakers and crinkle tentacles.",
            ),
            image: String::from_str("/squid.jpg"),
        },
        Product {
            id: 3,
            name: String::from_str("Mermaid's Mice Trio"),
            price_cents: 1299,
            description: String::from_str(
                "Entertain your kitty with the Mermaid's Mice Trio. These adorable plush mice are dressed as mermaids and filled with catnip to captivate their curiosity.",
            ),
            image: String::from_str("/mermaid.jpg"),
        },
        Product {
            id: 4,
            name: String::from_str("Ocean Explorer's Puzzle Ball"),
            price_cents: 1199,
            description: String::from_str(
                "Challenge your pet's problem-solving skills with the Ocean Explorer's Puzzle Ball. This interactive toy features hidden compartments and treats, providing mental stimulation and entertainment.",
            ),
            image: String::from_str("/ocean.jpg"),
        },
        Product {
            id: 5,
            name: String::from_str("Pirate Parrot Teaser Wand"),
            price_cents: 899,
            description: String::from_str(
                "Engage your cat in a playful pursuit with the Pirate Parrot Teaser Wand. The colorful feathers and jingling bells mimic the mischievous charm of a pirate's parrot.",
            ),
            image: String::from_str("/pirate.jpg"),
        },
        Product {
            id: 6,
            name: String::from_str("Seafarer's Tug Rope"),
            price_cents: 1499,
            description: String::from_str(
                "Tug-of-war meets nautical adventure with the Seafarer's Tug Rope. Made from marine-grade rope, it's perfect for interactive play and promoting dental health in dogs.",
            ),
            image: String::from_str("/tug.jpg"),
        },
        Product {
            id: 7,
            name: String::from_str("Seashell Snuggle Bed"),
            price_cents: 1999,
            description: String::from_str(
                "Give your furry friend a cozy spot to curl up with the Seashell Snuggle Bed. Shaped like a seashell, this plush bed provides comfort and relaxation for cats and small dogs.",
            ),
            image: String::from_str("/bed.jpg"),
        },
        Product {
            id: 8,
            name: String::from_str("Nautical Knot Ball"),
            price_cents: 799,
            description: String::from_str(
                "Unleash your dog's inner sailor with the Nautical Knot Ball. Made from sturdy ropes, it's perfect for fetching, tugging, and satisfying their chewing needs.",
            ),
            image: String::from_str("/knot.jpg"),
        },
        Product {
            id: 9,
            name: String::from_str("Contoso Claw's Crabby Cat Toy"),
            price_cents: 399,
            description: String::from_str(
                "Watch your cat go crazy for Contoso Claw's Crabby Cat Toy. This crinkly and catnip-filled toy will awaken their hunting instincts and provide endless entertainment.",
            ),
            image: String::from_str("/crabby.jpg"),
        },
        Product {
            id: 10,
            name: String::from_str("Ahoy Doggy Life Jacket"),
            price_cents: 599,
            description: String::from_str(
                "Ensure your furry friend stays safe during water adventures with the Ahoy Doggy Life Jacket. Designed for dogs, this flotation device offers buoyancy and visibility in style.",
            ),
            image: String::from_str("/lifejacket.jpg"),
        },
    ];
    proof {
        reveal_strlit(
            "Watch your feline friend embark on a fishing adventure with Contoso Catnip's Friend toy. Packed with irresistible catnip and dangling fish lure.",
        );
        reveal_strlit(
            "Let your dog set sail with the Salty Sailor's Squeaky Squid. This interactive toy provides hours of fun, featuring multiple squeakers and crinkle tentacles.",
        );
        reveal_strlit(
            "Entertain your kitty with the Mermaid's Mice Trio. These adorable plush mice are dressed as mermaids and filled with catnip to captivate their curiosity.",
        );
        reveal_strlit(
            "Challenge your pet's problem-solving skills with the Ocean Explorer's Puzzle Ball. This interactive toy features hidden compartments and treats, providing mental stimulation and entertainment.",
        );
        reveal_strlit(
            "Engage your cat in a playful pursuit with the Pirate Parrot Teaser Wand. The colorful feathers and jingling bells mimic the mischievous charm of a pirate's parrot.",
        );
        reveal_strlit(
            "Tug-of-war meets nautical adventure with the Seafarer's Tug Rope. Made from marine-grade rope, it's perfect for interactive play and promoting dental health in dogs.",
        );
        reveal_strlit(
            "Give your furry friend a cozy spot to curl up with the Seashell Snuggle Bed. Shaped like a seashell, this plush bed provides comfort and relaxation for cats and small dogs.",
        );
        reveal_strlit(
            "Unleash your dog's inner sailor with the Nautical Knot Ball. Made from sturdy ropes, it's perfect for fetching, tugging, and satisfying their chewing needs.",
        );
        reveal_strlit(
            "Watch your cat go crazy for Contoso Claw's Crabby Cat Toy. This crinkly and catnip-filled toy will awaken their hunting instincts and provide endless entertainment.",
        );
        reveal_strlit(
            "Ensure your furry friend stays safe during water adventures with the Ahoy Doggy Life Jacket. Designed for dogs, this flotation device offers buoyancy and visibility in style.",
        );
    }
    products
}

} // verus!
