//! The picture commands: which picture is shown, and on what card.

use vstd::prelude::*;
use vstd::string::*;
use crate::embed::{blank, card_color, credit, Embed, EmbedModel, Requester};
use crate::fun::pick_one;
use crate::general::truth;
use crate::text::{decimal, push_decimal};

verus! {

/// The addresses of the pictures of beaches, in order.
pub open spec fn beach_list() -> Seq<&'static str> {
    seq![
        "https://i.ibb.co/5sX6N82/DALL-E-2022-09-06-12-28-45-Beach-in-vaperwave-style-realistic.png",
        "https://i.ibb.co/0jxFd0Y/DALL-E-2022-09-06-12-44-01-man-standing-on-vaperwave-styled-beach-realistic.png",
        "https://i.ibb.co/wQxqBW1/DALL-E-2022-09-06-12-46-05-Beach-in-vaperwave-style-realistic.png",
        "https://i.ibb.co/YP6Vrrg/DALL-E-2022-09-06-19-52-46-Beach-in-vaperwave-style-realistic.png",
        "https://i.ibb.co/7WP94MY/DALL-E-2022-09-06-19-52-53-Beach-in-vaperwave-style-realistic.png",
        "https://i.ibb.co/qkJGhYN/DALL-E-2022-09-06-19-52-56-Beach-in-vaperwave-style-realistic.png",
        "https://i.ibb.co/Nt4SdPP/DALL-E-2022-09-06-19-53-09-vaperwave-style-beach-realistic.png",
        "https://i.ibb.co/16Ck6wG/DALL-E-2022-09-06-19-53-13-vaperwave-style-beach-realistic.png",
        "https://i.ibb.co/VphX7ZV/DALL-E-2022-09-06-19-53-24-Beach-in-vaperwave-style-realistic.png",
        "https://i.ibb.co/bFQ58RC/DALL-E-2022-09-06-19-53-26-Beach-in-vaperwave-style-realistic.png",
        "https://i.ibb.co/GH0RQjT/DALL-E-2022-10-10-11-35-08-Vaperwave-style-beach-realistic.png",
        "https://i.ibb.co/2dJX5tH/DALL-E-2022-10-10-11-51-42-beach-with-pyramids-in-the-ocean.png",
        "https://i.ibb.co/1r056ZX/DALL-E-2022-10-10-11-54-50-extend.png",
        "https://i.ibb.co/xmZ09SL/DALL-E-2022-10-10-11-56-43-beach-in-vaperwave-style-digital-art.png",
        "https://i.ibb.co/VHd9yTt/DALL-E-2022-10-10-11-57-16-beach-in-tokyo-digital-art.png",
        "https://i.ibb.co/WgYTYs9/DALL-E-2023-03-06-12-34-39-Synthwave-Vaperwave-Cyberpunk-styled-beach-pink-sand-aqua-sky-vaperwave-s.png",
        "https://i.ibb.co/TgxQzN2/DALL-E-2023-03-06-12-34-44-Synthwave-Vaperwave-Cyberpunk-styled-beach-pink-sand-aqua-sky-vaperwave-s.png",
        "https://i.ibb.co/4MZfbQN/DALL-E-2023-03-06-12-35-09-Synthwave-Vaperwave-Cyberpunk-styled-beach-pink-sand-aqua-sky-vaperwave-s.png",
        "https://i.ibb.co/st7bn4C/DALL-E-2023-03-06-12-35-15-Synthwave-Vaperwave-Cyberpunk-styled-beach-pink-sand-aqua-sky-vaperwave-s.png",
        "https://i.ibb.co/7ncbzLh/DALL-E-2023-03-06-12-35-21-Synthwave-Vaperwave-Cyberpunk-styled-beach-pink-sand-aqua-sky-vaperwave-s.png",
        "https://i.ibb.co/DQRxf86/DALL-E-2023-08-17-10-14-06-beach-in-vaperwave-style-realistic.png",
        "https://i.ibb.co/jvgYRbq/DALL-E-2023-08-17-10-14-03-beach-in-vaperwave-style-realistic.png",
        "https://i.ibb.co/g3vrc79/DALL-E-2023-08-17-10-12-50-beach-in-vaperwave-style-realistic.png",
        "https://i.ibb.co/b7vtZfK/DALL-E-2023-08-17-10-12-31-beach-in-vaperwave-style-realistic.png",
        "https://i.ibb.co/KVcR3c4/DALL-E-2023-08-17-10-12-27-beach-in-vaperwave-style-realistic.png",
        "https://i.ibb.co/Bq1MsDL/DALL-E-2023-08-17-10-12-25-beach-in-vaperwave-style-realistic.png",
        "https://i.ibb.co/TPQNMLG/DALL-E-2023-08-17-10-12-01-beach-in-vaperwave-style-realistic.png",
        "https://i.ibb.co/tPCzNPr/DALL-E-2023-08-17-10-11-55-beach-in-vaperwave-style-realistic.png",
    ]
}

/// The pictures of beaches.
pub fn beach_pictures() -> (r: Vec<&'static str>)
    ensures
        r@ == beach_list(),
{
    vec![
        "https://i.ibb.co/5sX6N82/DALL-E-2022-09-06-12-28-45-Beach-in-vaperwave-style-realistic.png",
        "https://i.ibb.co/0jxFd0Y/DALL-E-2022-09-06-12-44-01-man-standing-on-vaperwave-styled-beach-realistic.png",
        "https://i.ibb.co/wQxqBW1/DALL-E-2022-09-06-12-46-05-Beach-in-vaperwave-style-realistic.png",
        "https://i.ibb.co/YP6Vrrg/DALL-E-2022-09-06-19-52-46-Beach-in-vaperwave-style-realistic.png",
        "https://i.ibb.co/7WP94MY/DALL-E-2022-09-06-19-52-53-Beach-in-vaperwave-style-realistic.png",
        "https://i.ibb.co/qkJGhYN/DALL-E-2022-09-06-19-52-56-Beach-in-vaperwave-style-realistic.png",
        "https://i.ibb.co/Nt4SdPP/DALL-E-2022-09-06-19-53-09-vaperwave-style-beach-realistic.png",
        "https://i.ibb.co/16Ck6wG/DALL-E-2022-09-06-19-53-13-vaperwave-style-beach-realistic.png",
        "https://i.ibb.co/VphX7ZV/DALL-E-2022-09-06-19-53-24-Beach-in-vaperwave-style-realistic.png",
        "https://i.ibb.co/bFQ58RC/DALL-E-2022-09-06-19-53-26-Beach-in-vaperwave-style-realistic.png",
        "https://i.ibb.co/GH0RQjT/DALL-E-2022-10-10-11-35-08-Vaperwave-style-beach-realistic.png",
        "https://i.ibb.co/2dJX5tH/DALL-E-2022-10-10-11-51-42-beach-with-pyramids-in-the-ocean.png",
        "https://i.ibb.co/1r056ZX/DALL-E-2022-10-10-11-54-50-extend.png",
        "https://i.ibb.co/xmZ09SL/DALL-E-2022-10-10-11-56-43-beach-in-vaperwave-style-digital-art.png",
        "https://i.ibb.co/VHd9yTt/DALL-E-2022-10-10-11-57-16-beach-in-tokyo-digital-art.png",
        "https://i.ibb.co/WgYTYs9/DALL-E-2023-03-06-12-34-39-Synthwave-Vaperwave-Cyberpunk-styled-beach-pink-sand-aqua-sky-vaperwave-s.png",
        "https://i.ibb.co/TgxQzN2/DALL-E-2023-03-06-12-34-44-Synthwave-Vaperwave-Cyberpunk-styled-beach-pink-sand-aqua-sky-vaperwave-s.png",
        "https://i.ibb.co/4MZfbQN/DALL-E-2023-03-06-12-35-09-Synthwave-Vaperwave-Cyberpunk-styled-beach-pink-sand-aqua-sky-vaperwave-s.png",
        "https://i.ibb.co/st7bn4C/DALL-E-2023-03-06-12-35-15-Synthwave-Vaperwave-Cyberpunk-styled-beach-pink-sand-aqua-sky-vaperwave-s.png",
        "https://i.ibb.co/7ncbzLh/DALL-E-2023-03-06-12-35-21-Synthwave-Vaperwave-Cyberpunk-styled-beach-pink-sand-aqua-sky-vaperwave-s.png",
        "https://i.ibb.co/DQRxf86/DALL-E-2023-08-17-10-14-06-beach-in-vaperwave-style-realistic.png",
        "https://i.ibb.co/jvgYRbq/DALL-E-2023-08-17-10-14-03-beach-in-vaperwave-style-realistic.png",
        "https://i.ibb.co/g3vrc79/DALL-E-2023-08-17-10-12-50-beach-in-vaperwave-style-realistic.png",
        "https://i.ibb.co/b7vtZfK/DALL-E-2023-08-17-10-12-31-beach-in-vaperwave-style-realistic.png",
        "https://i.ibb.co/KVcR3c4/DALL-E-2023-08-17-10-12-27-beach-in-vaperwave-style-realistic.png",
        "https://i.ibb.co/Bq1MsDL/DALL-E-2023-08-17-10-12-25-beach-in-vaperwave-style-realistic.png",
        "https://i.ibb.co/TPQNMLG/DALL-E-2023-08-17-10-12-01-beach-in-vaperwave-style-realistic.png",
        "https://i.ibb.co/tPCzNPr/DALL-E-2023-08-17-10-11-55-beach-in-vaperwave-style-realistic.png",
    ]
}

/// A card that shows the picture at `url` under `title`.
pub open spec fn picture_card(title: Seq<char>, url: Seq<char>, requester: Requester) -> EmbedModel {
    blank(title, card_color()).with_picture(url).signed(
        "Requested by "@ + requester.name@,
        requester.face@,
    )
}

/// Builds the card that shows the picture at `url` under `title`.
pub fn picture_reply(title: &str, url: &str, requester: &Requester) -> (r: Embed)
    ensures
        r@ == picture_card(title@, url@, *requester),
{
    let mut card = Embed::new(title);
    card.picture(url);
    let footer = credit("Requested by ", requester.name.as_str());
    card.sign(footer.as_str(), requester.face.as_str());
    card
}

/// What a picture command says where there is no picture to pick.
pub open spec fn no_pictures_text() -> Seq<char> {
    "No images found."@
}

/// The `aibeach` command: a card with one of `pictures`, picked at random;
/// where there is none, the caller is told so.
pub fn aibeach(pictures: &Vec<&'static str>, requester: &Requester) -> (r: Result<Embed, String>)
    ensures
        pictures@.len() == 0 ==> r.is_err() && r.unwrap_err()@ == no_pictures_text(),
        pictures@.len() > 0 ==> r.is_ok() && exists|i: int|
            0 <= i < pictures@.len() && r.unwrap()@ == picture_card(
                "Here's a AI Generated beach image!"@,
                (#[trigger] pictures@[i])@,
                *requester,
            ),
{
    match pick_one(pictures.as_slice()) {
        Some(url) => {
            proof {
                let i = choose|i: int| 0 <= i < pictures@.len() && pictures@[i] == *url;
                assert(pictures@[i]@ == url@);
            }
            Ok(picture_reply("Here's a AI Generated beach image!", url, requester))
        },
        None => Err(String::from_str("No images found.")),
    }
}

/// The address that lists `count` pictures of shibas.
pub fn shiba_query(count: u64, urls: bool, https_urls: bool) -> (r: String)
    ensures
        r@ == "http://shibe.online/api/shibes?count="@ + decimal(count as nat) + "&urls="@ + truth(
            urls,
        ) + "&httpsUrls="@ + truth(https_urls),
{
    let mut s = String::from_str("http://shibe.online/api/shibes?count=");
    push_decimal(&mut s, count as u128);
    s.append("&urls=");
    if urls {
        s.append("true");
    } else {
        s.append("false");
    }
    s.append("&httpsUrls=");
    if https_urls {
        s.append("true");
    } else {
        s.append("false");
    }
    s
}

/// The `shiba` command, once the list of pictures was asked for: where the
/// request failed the caller is told so; where the list is empty, that no
/// picture was found; otherwise the card shows one of the pictures, picked
/// at random.
pub fn shiba(succeeded: bool, pictures: &Vec<String>, requester: &Requester) -> (r: Result<
    Embed,
    String,
>)
    ensures
        !succeeded ==> r.is_err() && r.unwrap_err()@ == "Failed to retrieve images."@,
        succeeded && pictures@.len() == 0 ==> r.is_err() && r.unwrap_err()@ == no_pictures_text(),
        succeeded && pictures@.len() > 0 ==> r.is_ok() && exists|i: int|
            0 <= i < pictures@.len() && r.unwrap()@ == picture_card(
                "Here's a shiba!"@,
                (#[trigger] pictures@[i])@,
                *requester,
            ),
{
    if !succeeded {
        return Err(String::from_str("Failed to retrieve images."));
    }
    match pick_one(pictures.as_slice()) {
        Some(url) => {
            proof {
                let i = choose|i: int| 0 <= i < pictures@.len() && pictures@[i] == *url;
                assert(pictures@[i]@ == url@);
            }
            Ok(picture_reply("Here's a shiba!", url.as_str(), requester))
        },
        None => Err(String::from_str("No images found.")),
    }
}

} // verus!
