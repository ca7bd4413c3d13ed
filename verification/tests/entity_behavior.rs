use domain::entity::EntityTrait;

#[derive(Debug, Clone, PartialEq, Eq)]
struct UserId(i32);

#[derive(Debug)]
struct User {
    id: UserId,
    #[allow(dead_code)]
    name: String,
    #[allow(dead_code)]
    age: i32,
}

impl EntityTrait for User {
    type Identity = UserId;

    fn spec_identity(&self) -> UserId {
        self.id.clone()
    }

    fn identity(&self) -> UserId {
        self.id.clone()
    }
}

impl PartialEq for User {
    fn eq(&self, other: &Self) -> bool {
        <User as EntityTrait>::eq(self, other)
    }
}

impl Eq for User {}

#[derive(Debug)]
struct OrderItem {
    order_id: i32,
    item_id: i32,
    #[allow(dead_code)]
    quantity: i32,
}

impl EntityTrait for OrderItem {
    type Identity = (i32, i32);

    fn spec_identity(&self) -> (i32, i32) {
        (self.order_id, self.item_id)
    }

    fn identity(&self) -> (i32, i32) {
        (self.order_id, self.item_id)
    }
}

impl PartialEq for OrderItem {
    fn eq(&self, other: &Self) -> bool {
        <OrderItem as EntityTrait>::eq(self, other)
    }
}

impl Eq for OrderItem {}

#[derive(Debug)]
struct GenericEntity<'a, T, U, const N: usize>
where
    T: Eq,
    U: Eq,
{
    id_part1: T,
    id_part2: U,
    #[allow(dead_code)]
    data: &'a str,
}

impl<'a, T: Eq + Clone, U: Eq + Clone, const N: usize> EntityTrait for GenericEntity<'a, T, U, N> {
    type Identity = (T, U);

    fn spec_identity(&self) -> (T, U) {
        (self.id_part1.clone(), self.id_part2.clone())
    }

    fn identity(&self) -> (T, U) {
        (self.id_part1.clone(), self.id_part2.clone())
    }
}

impl<'a, T: Eq + Clone, U: Eq + Clone, const N: usize> PartialEq for GenericEntity<'a, T, U, N> {
    fn eq(&self, other: &Self) -> bool {
        <Self as EntityTrait>::eq(self, other)
    }
}

impl<'a, T: Eq + Clone, U: Eq + Clone, const N: usize> Eq for GenericEntity<'a, T, U, N> {}

#[test]
fn test_entity_equality_single_id() {
    let user1 = User { id: UserId(1), name: "Alice".to_string(), age: 20 };
    let user2 = User { id: UserId(1), name: "Bob".to_string(), age: 25 };
    let user3 = User { id: UserId(2), name: "Alice".to_string(), age: 20 };

    assert_eq!(user1, user2, "Users with the same ID should be equal");
    assert_ne!(user1, user3, "Users with different IDs should not be equal");
}

#[test]
fn test_entity_equality_composite_id() {
    let item1 = OrderItem { order_id: 10, item_id: 1, quantity: 5 };
    let item2 = OrderItem { order_id: 10, item_id: 1, quantity: 999 };
    let item3 = OrderItem { order_id: 10, item_id: 2, quantity: 5 };

    assert_eq!(item1, item2, "Composite ID match should imply equality");
    assert_ne!(item1, item3, "Partial match of composite ID should imply inequality");
}

#[test]
fn test_generic_entity() {
    let entity1: GenericEntity<'_, i32, String, 100> =
        GenericEntity { id_part1: 42_i32, id_part2: "key".to_string(), data: "Some data" };
    let entity2: GenericEntity<'_, i32, String, 100> =
        GenericEntity { id_part1: 42, id_part2: "key".to_string(), data: "Different data" };
    let entity3: GenericEntity<'_, i32, String, 100> =
        GenericEntity { id_part1: 43, id_part2: "key".to_string(), data: "Some data" };

    assert_eq!(entity1, entity2, "Entities with same generic IDs should be equal");
    assert_ne!(entity1, entity3, "Entities with different generic IDs should not be equal");
}
