use vstd::prelude::*;

verus! {

/// The kinds of bullets.
#[derive(Debug, Copy, Clone, PartialEq, Eq, Structural)]
pub enum BulletType {
    Small,
    Fast,
    Round1,
    Round2,
    Twin,
    BigAss,
}

/// File name of the sprite of a kind of bullet.
pub open spec fn bullet_sprite(b: BulletType) -> Seq<char> {
    match b {
        BulletType::Small => "small_bullet.png"@,
        BulletType::Fast => "fast_bullet.png"@,
        BulletType::Twin => "twin_bullets.png"@,
        BulletType::Round1 => "round_bullet.png"@,
        BulletType::Round2 => "round_bullet_2.png"@,
        BulletType::BigAss => "big_ass_bullet.png"@,
    }
}

impl BulletType {
    /// Get the name of the sprite that this bullet is representing
    pub fn get_sprite_name(&self) -> (r: String)
        ensures
            r@ == bullet_sprite(*self),
    {
        match *self {
            BulletType::Small => "small_bullet.png",
            BulletType::Fast => "fast_bullet.png",
            BulletType::Twin => "twin_bullets.png",
            BulletType::Round1 => "round_bullet.png",
            BulletType::Round2 => "round_bullet_2.png",
            BulletType::BigAss => "big_ass_bullet.png",
        }.to_owned()
    }
}

} // verus!
