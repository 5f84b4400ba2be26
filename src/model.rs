use vstd::prelude::*;

verus! {

/// Number of buckets in a restaurant's rating histogram, one per star.
pub const STAR_BUCKETS: usize = 5;

/// The payload of a creation request: the natural key and a description.
pub struct Restaurant {
    pub name: String,
    pub description: String,
}

impl View for Restaurant {
    type V = (Seq<char>, Seq<char>);

    open spec fn view(&self) -> (Seq<char>, Seq<char>) {
        (self.name@, self.description@)
    }
}

/// A stored restaurant: the payload's fields and the rating histogram, whose
/// bucket `i` counts the reviews with `i + 1` stars.
pub struct RestaurantRecord {
    pub name: String,
    pub description: String,
    pub num_star: Vec<i32>,
}

/// The mathematical value of a stored restaurant.
pub struct RestaurantView {
    pub name: Seq<char>,
    pub description: Seq<char>,
    pub num_star: Seq<i32>,
}

impl View for RestaurantRecord {
    type V = RestaurantView;

    open spec fn view(&self) -> RestaurantView {
        RestaurantView {
            name: self.name@,
            description: self.description@,
            num_star: self.num_star@,
        }
    }
}

/// Why a rating could not be counted.
#[derive(Clone, Copy, Debug, PartialEq, Eq, Structural)]
pub enum RatingError {
    /// The rating is not a whole number of stars from one to five.
    OutOfRange,
    /// The record's histogram does not have one bucket per star.
    MalformedHistogram,
    /// The bucket already holds the largest count it can.
    BucketFull,
}

/// The histogram of a restaurant that has no reviews yet.
pub open spec fn empty_histogram() -> Seq<i32> {
    seq![0i32, 0i32, 0i32, 0i32, 0i32]
}

/// The record that the creation of `rest` stores.
pub open spec fn new_record(rest: (Seq<char>, Seq<char>)) -> RestaurantView {
    RestaurantView { name: rest.0, description: rest.1, num_star: empty_histogram() }
}

/// A rating that names one of the histogram's buckets.
pub open spec fn valid_rating(rating: u32) -> bool {
    1 <= rating <= 5
}

/// The histogram after one more review with `rating` stars.
pub open spec fn histogram_after(h: Seq<i32>, rating: u32) -> Seq<i32>
    recommends
        valid_rating(rating),
        h.len() == 5,
{
    h.update(rating - 1, (h[rating - 1] + 1) as i32)
}

/// Which error, if any, counting `rating` into `h` meets.
pub open spec fn rating_error(h: Seq<i32>, rating: u32) -> Option<RatingError> {
    if !valid_rating(rating) {
        Some(RatingError::OutOfRange)
    } else if h.len() != 5 {
        Some(RatingError::MalformedHistogram)
    } else if h[rating - 1] == i32::MAX {
        Some(RatingError::BucketFull)
    } else {
        None
    }
}

impl RestaurantRecord {
    /// The record that creating `rest` stores: its fields, with no reviews.
    pub fn from_new(rest: &Restaurant) -> (r: RestaurantRecord)
        ensures
            r@ == new_record(rest@),
    {
        let mut num_star: Vec<i32> = Vec::new();
        let mut i: usize = 0;
        while i < STAR_BUCKETS
            invariant
                i <= STAR_BUCKETS,
                num_star@.len() == i,
                forall|j: int| 0 <= j < i ==> num_star@[j] == 0,
            decreases STAR_BUCKETS - i,
        {
            num_star.push(0);
            i = i + 1;
        }
        assert(num_star@ =~= empty_histogram());
        RestaurantRecord {
            name: rest.name.clone(),
            description: rest.description.clone(),
            num_star,
        }
    }

    /// Copies the record.
    pub fn duplicate(&self) -> (r: RestaurantRecord)
        ensures
            r@ == self@,
    {
        let mut num_star: Vec<i32> = Vec::new();
        let mut i: usize = 0;
        while i < self.num_star.len()
            invariant
                i <= self.num_star@.len(),
                num_star@ =~= self.num_star@.subrange(0, i as int),
            decreases self.num_star@.len() - i,
        {
            num_star.push(self.num_star[i]);
            i = i + 1;
        }
        assert(num_star@ =~= self.num_star@);
        RestaurantRecord {
            name: self.name.clone(),
            description: self.description.clone(),
            num_star,
        }
    }

    /// Counts one review with `rating` stars: its bucket grows by one and
    /// the others stay. On an error the record is left as it was.
    pub fn add_rating(&mut self, rating: u32) -> (r: Result<(), RatingError>)
        ensures
            final(self).name == old(self).name,
            final(self).description == old(self).description,
            match rating_error(old(self).num_star@, rating) {
                Some(e) => r == Err::<(), RatingError>(e) && final(self).num_star@ == old(
                    self,
                ).num_star@,
                None => r is Ok && final(self).num_star@ == histogram_after(
                    old(self).num_star@,
                    rating,
                ),
            },
    {
        if rating < 1 || rating > 5 {
            return Err(RatingError::OutOfRange);
        }
        if self.num_star.len() != STAR_BUCKETS {
            return Err(RatingError::MalformedHistogram);
        }
        let idx: usize = (rating - 1) as usize;
        let count: i32 = self.num_star[idx];
        if count == i32::MAX {
            return Err(RatingError::BucketFull);
        }
        self.num_star.set(idx, count + 1);
        Ok(())
    }
}

} // verus!
