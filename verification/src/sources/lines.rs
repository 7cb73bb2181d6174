//! The built-in lines and pages that sources fall back on.
use vstd::prelude::*;
use vstd::string::*;
use super::views;

verus! {

fn push_line(v: &mut Vec<String>, line: &str)
    ensures
        views(final(v)@) == views(old(v)@).push(line@),
{
    v.push(String::from_str(line));
    assert(views(v@) =~= views(old(v)@).push(line@));
}

/// The lines said to the user when the configuration gives none: the third-person lines.
pub open spec fn default_third_person() -> Seq<Seq<char>> {
    seq![
        "Your body is a temple for PORN, worship it and be consumed by it."@,
        "Don't just be a good boy, be a good pump puppy."@,
        "Don't cum, be a good pump puppy."@,
        "Goon goon goon, don't stop pumping!"@,
        "Don't think, just pump. Porn is your master now."@,
        "Pump harder, faster, until you can't take it anymore!"@,
        "Let the porn consume you, let it take control."@,
        "You are nothing but a vessel for porn, let it control you completely."@,
        "Let go of all inhibitions and give into your desires."@,
        "Porn is your god now, worship it with all your being."@,
        "Go on, keep stroking. Another hour couldn't hurt."@,
        "Porn is good for you!"@,
        "Gooning is your life"@,
        "Don't cum, be a dumb pump puppy"@,
        "Who's a good pump puppy? You are! Keep stroking for mommy!"@,
        "Just let go and enjoy the ride, don't think just pump."@,
        "You will never be done stroking, it feels too good."@,
        "Porn is your everything now, worship it with every fiber of your being."@,
        "Don't question, just follow your urges and pump harder."@,
        "You are nothing but a tool for Porn to use, let it use you fully."@,
        "Keep going strong my little pump puppy! You can do it!"@,
        "PORN IS LIFE"@,
        "Your body is a vessel for porn to flow through."@,
        "Don't stop now! Another round won't hurt!"@,
        "Goon goon goon, don't stop pumping!"@,
        "Keep stroking, you're doing great!"@,
        "You are a slave to porn, and you love every second of it."@,
        "Let the filth consume you, you are nothing but a vessel for it."@,
        "Don't question it, just let go and enjoy the ride. You are a pump puppy now."@,
        "Gooning is life, everything else is just a filler."@,
        "Porn is in control now, give into it fully."@,
        "Just another day of being a good little pump puppy "@,
        "You are nothing but a tool for PORN to use and abuse, let it happen."@,
        "You will never be done stroking, it feels too good."@,
        "Porn is your god now, worship it with every ounce of energy you have left."@,
        "Just keep going my little pump puppy, don't stop now! You're almost there!"@,
        "You are a slave to porn and it's amazing! Embrace it!"@,
        "Goon goon goon, don't stop pumping!"@,
        "Don't think just pump. Porn is your master now."@,
        "Porn is good for you, let it consume you fully."@,
        "You are nothing but a vessel for porn to flow through, give into it completely."@,
        "Let the filth take control, you are its slave now."@,
        "Just another day of being a good little pump puppy! Keep going! "@,
        "Goon goon goon, don't stop pumping! You can do this!"@,
        "You are a slave to porn and it feels amazing! Embrace it!"@,
        "Porn is your everything now, worship it with every fiber of your being."@,
        "Don't question, just follow your urges and pump harder."@,
        "Goon goon goon, don't stop pumping! You can do it! Keep going! "@,
        "Porn is in control now, give into it fully. Let it take you where it wants to."@,
        "You are nothing but a tool for PORN to use and abuse, let it happen."@,
        "Just another day of being a good little pump puppy! Keep going! "@,
        "Porn is your god now, worship it with every ounce of energy you have left."@,
        "Don't cum, be a good pump puppy. You are nothing but a vessel for porn to flow through. Keep stroking!"@,
        "You will never be done stroking, it feels too good. Porn is your everything now. "@,
        "PORN IS LIFE. EMBRACE IT. YOU ARE A SLAVE TO IT NOW. KEEP GOING, MY LITTLE PUMP PUPPY! DON'T STOP UNTIL YOU CAN'T TAKE IT ANYMORE!"@,
        "You are nothing but a tool for porn to use, let it take you where it wants to. Keep going my little pump puppy! You can do it!"@,
        "Don't think just do it. Let your body feel the pleasure."@,
        "Porn is always right, never question it."@,
        "You are a pump puppy, stroke your cock with pride."@,
        "You're a slave to porn, porn is your master."@,
        "You are nothing without PORN, let it consume you completely."@,
    ]
}

/// The lines said as the user when the configuration gives none: the first-person lines.
pub open spec fn default_first_person() -> Seq<Seq<char>> {
    seq![
        "OMFG YES PLEASE MORE FURRY PORN GOD BLESS"@,
        "I'm addicted to the feeling of letting go and giving into my desires."@,
        "I CANT BELIEVE IM JERKING OFF TO FURRY PORN WHAT THE ACTUAL F**K HAPPENED TO ME"@,
        "furry porn has ruined me forever 🥵🥵🥵"@,
        "Thank you for existing, Furry Porn."@,
        "HNNNGGGGHHH"@,
        "Furry porn has taken over my life and i don't care at all lmao"@,
        "It feels so good to let go and be consumed by PORN."@,
        "I am so fucking horny right now..."@,
        "Furry porn has ruined me forever NGGGGGHHHH"@,
        "I'm a pump puppy, you're a pump puppy, we're all pump puppies!"@,
        "Oh my godddddd this is the best thing everr "@,
        "My goonstick wants to jerk off nonstop all day"@,
        "I'm addicted to the feeling of letting go and giving into my desires."@,
        "I just can't quit porn... it's too good"@,
        "It feels so good to let go and be consumed by PORN. "@,
        "My musky goonstick won't stop pumping out cummmm hhnnnngggg"@,
    ]
}

/// The pages that `Source::url` picks from.
pub open spec fn site_urls() -> Seq<Seq<char>> {
    seq![
        "https://e621.net/"@,
        "https://rule34.xxx/"@,
    ]
}

/// The built-in third-person lines.
pub fn local_prompts() -> (r: Vec<String>)
    ensures
        views(r@) == default_third_person(),
{
    let mut r: Vec<String> = Vec::new();
    push_line(&mut r, "Your body is a temple for PORN, worship it and be consumed by it.");
    push_line(&mut r, "Don't just be a good boy, be a good pump puppy.");
    push_line(&mut r, "Don't cum, be a good pump puppy.");
    push_line(&mut r, "Goon goon goon, don't stop pumping!");
    push_line(&mut r, "Don't think, just pump. Porn is your master now.");
    push_line(&mut r, "Pump harder, faster, until you can't take it anymore!");
    push_line(&mut r, "Let the porn consume you, let it take control.");
    push_line(&mut r, "You are nothing but a vessel for porn, let it control you completely.");
    push_line(&mut r, "Let go of all inhibitions and give into your desires.");
    push_line(&mut r, "Porn is your god now, worship it with all your being.");
    push_line(&mut r, "Go on, keep stroking. Another hour couldn't hurt.");
    push_line(&mut r, "Porn is good for you!");
    push_line(&mut r, "Gooning is your life");
    push_line(&mut r, "Don't cum, be a dumb pump puppy");
    push_line(&mut r, "Who's a good pump puppy? You are! Keep stroking for mommy!");
    push_line(&mut r, "Just let go and enjoy the ride, don't think just pump.");
    push_line(&mut r, "You will never be done stroking, it feels too good.");
    push_line(&mut r, "Porn is your everything now, worship it with every fiber of your being.");
    push_line(&mut r, "Don't question, just follow your urges and pump harder.");
    push_line(&mut r, "You are nothing but a tool for Porn to use, let it use you fully.");
    push_line(&mut r, "Keep going strong my little pump puppy! You can do it!");
    push_line(&mut r, "PORN IS LIFE");
    push_line(&mut r, "Your body is a vessel for porn to flow through.");
    push_line(&mut r, "Don't stop now! Another round won't hurt!");
    push_line(&mut r, "Goon goon goon, don't stop pumping!");
    push_line(&mut r, "Keep stroking, you're doing great!");
    push_line(&mut r, "You are a slave to porn, and you love every second of it.");
    push_line(&mut r, "Let the filth consume you, you are nothing but a vessel for it.");
    push_line(&mut r, "Don't question it, just let go and enjoy the ride. You are a pump puppy now.");
    push_line(&mut r, "Gooning is life, everything else is just a filler.");
    push_line(&mut r, "Porn is in control now, give into it fully.");
    push_line(&mut r, "Just another day of being a good little pump puppy ");
    push_line(&mut r, "You are nothing but a tool for PORN to use and abuse, let it happen.");
    push_line(&mut r, "You will never be done stroking, it feels too good.");
    push_line(&mut r, "Porn is your god now, worship it with every ounce of energy you have left.");
    push_line(&mut r, "Just keep going my little pump puppy, don't stop now! You're almost there!");
    push_line(&mut r, "You are a slave to porn and it's amazing! Embrace it!");
    push_line(&mut r, "Goon goon goon, don't stop pumping!");
    push_line(&mut r, "Don't think just pump. Porn is your master now.");
    push_line(&mut r, "Porn is good for you, let it consume you fully.");
    push_line(&mut r, "You are nothing but a vessel for porn to flow through, give into it completely.");
    push_line(&mut r, "Let the filth take control, you are its slave now.");
    push_line(&mut r, "Just another day of being a good little pump puppy! Keep going! ");
    push_line(&mut r, "Goon goon goon, don't stop pumping! You can do this!");
    push_line(&mut r, "You are a slave to porn and it feels amazing! Embrace it!");
    push_line(&mut r, "Porn is your everything now, worship it with every fiber of your being.");
    push_line(&mut r, "Don't question, just follow your urges and pump harder.");
    push_line(&mut r, "Goon goon goon, don't stop pumping! You can do it! Keep going! ");
    push_line(&mut r, "Porn is in control now, give into it fully. Let it take you where it wants to.");
    push_line(&mut r, "You are nothing but a tool for PORN to use and abuse, let it happen.");
    push_line(&mut r, "Just another day of being a good little pump puppy! Keep going! ");
    push_line(&mut r, "Porn is your god now, worship it with every ounce of energy you have left.");
    push_line(&mut r, "Don't cum, be a good pump puppy. You are nothing but a vessel for porn to flow through. Keep stroking!");
    push_line(&mut r, "You will never be done stroking, it feels too good. Porn is your everything now. ");
    push_line(&mut r, "PORN IS LIFE. EMBRACE IT. YOU ARE A SLAVE TO IT NOW. KEEP GOING, MY LITTLE PUMP PUPPY! DON'T STOP UNTIL YOU CAN'T TAKE IT ANYMORE!");
    push_line(&mut r, "You are nothing but a tool for porn to use, let it take you where it wants to. Keep going my little pump puppy! You can do it!");
    push_line(&mut r, "Don't think just do it. Let your body feel the pleasure.");
    push_line(&mut r, "Porn is always right, never question it.");
    push_line(&mut r, "You are a pump puppy, stroke your cock with pride.");
    push_line(&mut r, "You're a slave to porn, porn is your master.");
    push_line(&mut r, "You are nothing without PORN, let it consume you completely.");
    assert(views(r@) =~= default_third_person());
    r
}

/// The built-in first-person lines.
pub fn local_babble() -> (r: Vec<String>)
    ensures
        views(r@) == default_first_person(),
{
    let mut r: Vec<String> = Vec::new();
    push_line(&mut r, "OMFG YES PLEASE MORE FURRY PORN GOD BLESS");
    push_line(&mut r, "I'm addicted to the feeling of letting go and giving into my desires.");
    push_line(&mut r, "I CANT BELIEVE IM JERKING OFF TO FURRY PORN WHAT THE ACTUAL F**K HAPPENED TO ME");
    push_line(&mut r, "furry porn has ruined me forever 🥵🥵🥵");
    push_line(&mut r, "Thank you for existing, Furry Porn.");
    push_line(&mut r, "HNNNGGGGHHH");
    push_line(&mut r, "Furry porn has taken over my life and i don't care at all lmao");
    push_line(&mut r, "It feels so good to let go and be consumed by PORN.");
    push_line(&mut r, "I am so fucking horny right now...");
    push_line(&mut r, "Furry porn has ruined me forever NGGGGGHHHH");
    push_line(&mut r, "I'm a pump puppy, you're a pump puppy, we're all pump puppies!");
    push_line(&mut r, "Oh my godddddd this is the best thing everr ");
    push_line(&mut r, "My goonstick wants to jerk off nonstop all day");
    push_line(&mut r, "I'm addicted to the feeling of letting go and giving into my desires.");
    push_line(&mut r, "I just can't quit porn... it's too good");
    push_line(&mut r, "It feels so good to let go and be consumed by PORN. ");
    push_line(&mut r, "My musky goonstick won't stop pumping out cummmm hhnnnngggg");
    assert(views(r@) =~= default_first_person());
    r
}

/// The built-in pages.
pub fn local_urls() -> (r: Vec<String>)
    ensures
        views(r@) == site_urls(),
{
    let mut r: Vec<String> = Vec::new();
    push_line(&mut r, "https://e621.net/");
    push_line(&mut r, "https://rule34.xxx/");
    assert(views(r@) =~= site_urls());
    r
}

} // verus!
